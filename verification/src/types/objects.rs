//! The decoded object lists of one ASDU: the run-time enum, its
//! mathematical model, and the dispatch over every supported type.

use vstd::prelude::*;

use crate::types::{
    GenericObject, ParseError, build_objects, commands, lemma_objs_dec_multi, lemma_objs_dec_seq,
    lemma_objs_enc_multi_dec, lemma_objs_enc_multi_len, lemma_objs_enc_payloads_len,
    lemma_objs_enc_seq_dec, measurements, objs_canon_multi, objs_canon_seq, objs_consecutive,
    objs_dec_multi, objs_dec_seq, objs_enc_multi, objs_enc_payloads, objs_enc_seq, objs_wf,
    parameters, serialize_multi, serialize_seq,
};
use crate::types_id::TypeId;

verus! {

/// The mathematical model of a decoded object list: one variant per
/// supported type, holding the sequence of addressed objects.
pub enum ObjectsView {
    /// Objects of type M_SP_NA_1.
    MSpNa1(Seq<GenericObject<measurements::MSpNa1>>),
    /// Objects of type M_SP_TA_1.
    MSpTa1(Seq<GenericObject<measurements::MSpTa1>>),
    /// Objects of type M_DP_NA_1.
    MDpNa1(Seq<GenericObject<measurements::MDpNa1>>),
    /// Objects of type M_DP_TA_1.
    MDpTa1(Seq<GenericObject<measurements::MDpTa1>>),
    /// Objects of type M_ST_NA_1.
    MStNa1(Seq<GenericObject<measurements::MStNa1>>),
    /// Objects of type M_ST_TA_1.
    MStTa1(Seq<GenericObject<measurements::MStTa1>>),
    /// Objects of type M_BO_NA_1.
    MBoNa1(Seq<GenericObject<measurements::MBoNa1>>),
    /// Objects of type M_ME_NA_1.
    MMeNa1(Seq<GenericObject<measurements::MMeNa1>>),
    /// Objects of type M_ME_TA_1.
    MMeTa1(Seq<GenericObject<measurements::MMeTa1>>),
    /// Objects of type M_ME_NB_1.
    MMeNb1(Seq<GenericObject<measurements::MMeNb1>>),
    /// Objects of type M_ME_TB_1.
    MMeTb1(Seq<GenericObject<measurements::MMeTb1>>),
    /// Objects of type M_ME_NC_1.
    MMeNc1(Seq<GenericObject<measurements::MMeNc1>>),
    /// Objects of type M_ME_TC_1.
    MMeTc1(Seq<GenericObject<measurements::MMeTc1>>),
    /// Objects of type M_IT_NA_1.
    MItNa1(Seq<GenericObject<measurements::MItNa1>>),
    /// Objects of type M_EP_TA_1.
    MEpTa1(Seq<GenericObject<measurements::MEpTa1>>),
    /// Objects of type M_EP_TB_1.
    MEpTb1(Seq<GenericObject<measurements::MEpTb1>>),
    /// Objects of type M_EP_TC_1.
    MEpTc1(Seq<GenericObject<measurements::MEpTc1>>),
    /// Objects of type M_PS_NA_1.
    MPsNa1(Seq<GenericObject<measurements::MPsNa1>>),
    /// Objects of type M_ME_ND_1.
    MMeNd1(Seq<GenericObject<measurements::MMeNd1>>),
    /// Objects of type M_SP_TB_1.
    MSpTb1(Seq<GenericObject<measurements::MSpTb1>>),
    /// Objects of type M_DP_TB_1.
    MDpTb1(Seq<GenericObject<measurements::MDpTb1>>),
    /// Objects of type M_ST_TB_1.
    MStTb1(Seq<GenericObject<measurements::MStTb1>>),
    /// Objects of type M_BO_TB_1.
    MBoTb1(Seq<GenericObject<measurements::MBoTb1>>),
    /// Objects of type M_ME_TD_1.
    MMeTd1(Seq<GenericObject<measurements::MMeTd1>>),
    /// Objects of type M_ME_TE_1.
    MMeTe1(Seq<GenericObject<measurements::MMeTe1>>),
    /// Objects of type M_ME_TF_1.
    MMeTf1(Seq<GenericObject<measurements::MMeTf1>>),
    /// Objects of type M_IT_TB_1.
    MItTb1(Seq<GenericObject<measurements::MItTb1>>),
    /// Objects of type M_EP_TD_1.
    MEpTd1(Seq<GenericObject<measurements::MEpTd1>>),
    /// Objects of type M_EP_TE_1.
    MEpTe1(Seq<GenericObject<measurements::MEpTe1>>),
    /// Objects of type M_EP_TF_1.
    MEpTf1(Seq<GenericObject<measurements::MEpTf1>>),
    /// Objects of type M_EI_NA_1.
    MEiNa1(Seq<GenericObject<measurements::MEiNa1>>),
    /// Objects of type C_SC_NA_1.
    CScNa1(Seq<GenericObject<commands::CScNa1>>),
    /// Objects of type C_DC_NA_1.
    CdcNa1(Seq<GenericObject<commands::CdcNa1>>),
    /// Objects of type C_RC_NA_1.
    CrcNa1(Seq<GenericObject<commands::CrcNa1>>),
    /// Objects of type C_SE_NA_1.
    CSeNa1(Seq<GenericObject<commands::CSeNa1>>),
    /// Objects of type C_SE_NB_1.
    CSeNb1(Seq<GenericObject<commands::CSeNb1>>),
    /// Objects of type C_SE_NC_1.
    CSeNc1(Seq<GenericObject<commands::CSeNc1>>),
    /// Objects of type C_BO_NA_1.
    CBoNa1(Seq<GenericObject<commands::CBoNa1>>),
    /// Objects of type C_SC_TA_1.
    CScTa1(Seq<GenericObject<commands::CScTa1>>),
    /// Objects of type C_DC_TA_1.
    CdcTa1(Seq<GenericObject<commands::CdcTa1>>),
    /// Objects of type C_RC_TA_1.
    CrcTa1(Seq<GenericObject<commands::CrcTa1>>),
    /// Objects of type C_SE_TA_1.
    CSeTa1(Seq<GenericObject<commands::CSeTa1>>),
    /// Objects of type C_SE_TB_1.
    CSeTb1(Seq<GenericObject<commands::CSeTb1>>),
    /// Objects of type C_SE_TC_1.
    CSeTc1(Seq<GenericObject<commands::CSeTc1>>),
    /// Objects of type C_BO_TA_1.
    CBoTa1(Seq<GenericObject<commands::CBoTa1>>),
    /// Objects of type C_IC_NA_1.
    CIcNa1(Seq<GenericObject<commands::CIcNa1>>),
    /// Objects of type C_CI_NA_1.
    CCiNa1(Seq<GenericObject<commands::CCiNa1>>),
    /// Objects of type C_RD_NA_1.
    CRdNa1(Seq<GenericObject<commands::CRdNa1>>),
    /// Objects of type C_CS_NA_1.
    CCsNa1(Seq<GenericObject<commands::CCsNa1>>),
    /// Objects of type C_TS_NA_1.
    CTsNa1(Seq<GenericObject<commands::CTsNa1>>),
    /// Objects of type C_RP_NA_1.
    CRpNa1(Seq<GenericObject<commands::CRpNa1>>),
    /// Objects of type C_CD_NA_1.
    CCdNa1(Seq<GenericObject<commands::CCdNa1>>),
    /// Objects of type C_TS_TA_1.
    CTsTa1(Seq<GenericObject<commands::CTsTa1>>),
    /// Objects of type P_ME_NA_1.
    PMeNa1(Seq<GenericObject<parameters::PMeNa1>>),
    /// Objects of type P_ME_NB_1.
    PMeNb1(Seq<GenericObject<parameters::PMeNb1>>),
    /// Objects of type P_ME_NC_1.
    PMeNc1(Seq<GenericObject<parameters::PMeNc1>>),
    /// Objects of type P_AC_NA_1.
    PAcNa1(Seq<GenericObject<parameters::PAcNa1>>),
}

impl ObjectsView {
    /// The type identifier this list belongs to.
    pub open spec fn type_id_spec(self) -> TypeId {
        match self {
            ObjectsView::MSpNa1(_) => TypeId::M_SP_NA_1,
            ObjectsView::MSpTa1(_) => TypeId::M_SP_TA_1,
            ObjectsView::MDpNa1(_) => TypeId::M_DP_NA_1,
            ObjectsView::MDpTa1(_) => TypeId::M_DP_TA_1,
            ObjectsView::MStNa1(_) => TypeId::M_ST_NA_1,
            ObjectsView::MStTa1(_) => TypeId::M_ST_TA_1,
            ObjectsView::MBoNa1(_) => TypeId::M_BO_NA_1,
            ObjectsView::MMeNa1(_) => TypeId::M_ME_NA_1,
            ObjectsView::MMeTa1(_) => TypeId::M_ME_TA_1,
            ObjectsView::MMeNb1(_) => TypeId::M_ME_NB_1,
            ObjectsView::MMeTb1(_) => TypeId::M_ME_TB_1,
            ObjectsView::MMeNc1(_) => TypeId::M_ME_NC_1,
            ObjectsView::MMeTc1(_) => TypeId::M_ME_TC_1,
            ObjectsView::MItNa1(_) => TypeId::M_IT_NA_1,
            ObjectsView::MEpTa1(_) => TypeId::M_EP_TA_1,
            ObjectsView::MEpTb1(_) => TypeId::M_EP_TB_1,
            ObjectsView::MEpTc1(_) => TypeId::M_EP_TC_1,
            ObjectsView::MPsNa1(_) => TypeId::M_PS_NA_1,
            ObjectsView::MMeNd1(_) => TypeId::M_ME_ND_1,
            ObjectsView::MSpTb1(_) => TypeId::M_SP_TB_1,
            ObjectsView::MDpTb1(_) => TypeId::M_DP_TB_1,
            ObjectsView::MStTb1(_) => TypeId::M_ST_TB_1,
            ObjectsView::MBoTb1(_) => TypeId::M_BO_TB_1,
            ObjectsView::MMeTd1(_) => TypeId::M_ME_TD_1,
            ObjectsView::MMeTe1(_) => TypeId::M_ME_TE_1,
            ObjectsView::MMeTf1(_) => TypeId::M_ME_TF_1,
            ObjectsView::MItTb1(_) => TypeId::M_IT_TB_1,
            ObjectsView::MEpTd1(_) => TypeId::M_EP_TD_1,
            ObjectsView::MEpTe1(_) => TypeId::M_EP_TE_1,
            ObjectsView::MEpTf1(_) => TypeId::M_EP_TF_1,
            ObjectsView::MEiNa1(_) => TypeId::M_EI_NA_1,
            ObjectsView::CScNa1(_) => TypeId::C_SC_NA_1,
            ObjectsView::CdcNa1(_) => TypeId::C_DC_NA_1,
            ObjectsView::CrcNa1(_) => TypeId::C_RC_NA_1,
            ObjectsView::CSeNa1(_) => TypeId::C_SE_NA_1,
            ObjectsView::CSeNb1(_) => TypeId::C_SE_NB_1,
            ObjectsView::CSeNc1(_) => TypeId::C_SE_NC_1,
            ObjectsView::CBoNa1(_) => TypeId::C_BO_NA_1,
            ObjectsView::CScTa1(_) => TypeId::C_SC_TA_1,
            ObjectsView::CdcTa1(_) => TypeId::C_DC_TA_1,
            ObjectsView::CrcTa1(_) => TypeId::C_RC_TA_1,
            ObjectsView::CSeTa1(_) => TypeId::C_SE_TA_1,
            ObjectsView::CSeTb1(_) => TypeId::C_SE_TB_1,
            ObjectsView::CSeTc1(_) => TypeId::C_SE_TC_1,
            ObjectsView::CBoTa1(_) => TypeId::C_BO_TA_1,
            ObjectsView::CIcNa1(_) => TypeId::C_IC_NA_1,
            ObjectsView::CCiNa1(_) => TypeId::C_CI_NA_1,
            ObjectsView::CRdNa1(_) => TypeId::C_RD_NA_1,
            ObjectsView::CCsNa1(_) => TypeId::C_CS_NA_1,
            ObjectsView::CTsNa1(_) => TypeId::C_TS_NA_1,
            ObjectsView::CRpNa1(_) => TypeId::C_RP_NA_1,
            ObjectsView::CCdNa1(_) => TypeId::C_CD_NA_1,
            ObjectsView::CTsTa1(_) => TypeId::C_TS_TA_1,
            ObjectsView::PMeNa1(_) => TypeId::P_ME_NA_1,
            ObjectsView::PMeNb1(_) => TypeId::P_ME_NB_1,
            ObjectsView::PMeNc1(_) => TypeId::P_ME_NC_1,
            ObjectsView::PAcNa1(_) => TypeId::P_AC_NA_1,
        }
    }

    /// How many objects the list holds.
    pub open spec fn len(self) -> nat {
        match self {
            ObjectsView::MSpNa1(s) => s.len(),
            ObjectsView::MSpTa1(s) => s.len(),
            ObjectsView::MDpNa1(s) => s.len(),
            ObjectsView::MDpTa1(s) => s.len(),
            ObjectsView::MStNa1(s) => s.len(),
            ObjectsView::MStTa1(s) => s.len(),
            ObjectsView::MBoNa1(s) => s.len(),
            ObjectsView::MMeNa1(s) => s.len(),
            ObjectsView::MMeTa1(s) => s.len(),
            ObjectsView::MMeNb1(s) => s.len(),
            ObjectsView::MMeTb1(s) => s.len(),
            ObjectsView::MMeNc1(s) => s.len(),
            ObjectsView::MMeTc1(s) => s.len(),
            ObjectsView::MItNa1(s) => s.len(),
            ObjectsView::MEpTa1(s) => s.len(),
            ObjectsView::MEpTb1(s) => s.len(),
            ObjectsView::MEpTc1(s) => s.len(),
            ObjectsView::MPsNa1(s) => s.len(),
            ObjectsView::MMeNd1(s) => s.len(),
            ObjectsView::MSpTb1(s) => s.len(),
            ObjectsView::MDpTb1(s) => s.len(),
            ObjectsView::MStTb1(s) => s.len(),
            ObjectsView::MBoTb1(s) => s.len(),
            ObjectsView::MMeTd1(s) => s.len(),
            ObjectsView::MMeTe1(s) => s.len(),
            ObjectsView::MMeTf1(s) => s.len(),
            ObjectsView::MItTb1(s) => s.len(),
            ObjectsView::MEpTd1(s) => s.len(),
            ObjectsView::MEpTe1(s) => s.len(),
            ObjectsView::MEpTf1(s) => s.len(),
            ObjectsView::MEiNa1(s) => s.len(),
            ObjectsView::CScNa1(s) => s.len(),
            ObjectsView::CdcNa1(s) => s.len(),
            ObjectsView::CrcNa1(s) => s.len(),
            ObjectsView::CSeNa1(s) => s.len(),
            ObjectsView::CSeNb1(s) => s.len(),
            ObjectsView::CSeNc1(s) => s.len(),
            ObjectsView::CBoNa1(s) => s.len(),
            ObjectsView::CScTa1(s) => s.len(),
            ObjectsView::CdcTa1(s) => s.len(),
            ObjectsView::CrcTa1(s) => s.len(),
            ObjectsView::CSeTa1(s) => s.len(),
            ObjectsView::CSeTb1(s) => s.len(),
            ObjectsView::CSeTc1(s) => s.len(),
            ObjectsView::CBoTa1(s) => s.len(),
            ObjectsView::CIcNa1(s) => s.len(),
            ObjectsView::CCiNa1(s) => s.len(),
            ObjectsView::CRdNa1(s) => s.len(),
            ObjectsView::CCsNa1(s) => s.len(),
            ObjectsView::CTsNa1(s) => s.len(),
            ObjectsView::CRpNa1(s) => s.len(),
            ObjectsView::CCdNa1(s) => s.len(),
            ObjectsView::CTsTa1(s) => s.len(),
            ObjectsView::PMeNa1(s) => s.len(),
            ObjectsView::PMeNb1(s) => s.len(),
            ObjectsView::PMeNc1(s) => s.len(),
            ObjectsView::PAcNa1(s) => s.len(),
        }
    }

    /// Every object is well formed and every address fits 24 bits.
    pub open spec fn wf(self) -> bool {
        match self {
            ObjectsView::MSpNa1(s) => objs_wf(s),
            ObjectsView::MSpTa1(s) => objs_wf(s),
            ObjectsView::MDpNa1(s) => objs_wf(s),
            ObjectsView::MDpTa1(s) => objs_wf(s),
            ObjectsView::MStNa1(s) => objs_wf(s),
            ObjectsView::MStTa1(s) => objs_wf(s),
            ObjectsView::MBoNa1(s) => objs_wf(s),
            ObjectsView::MMeNa1(s) => objs_wf(s),
            ObjectsView::MMeTa1(s) => objs_wf(s),
            ObjectsView::MMeNb1(s) => objs_wf(s),
            ObjectsView::MMeTb1(s) => objs_wf(s),
            ObjectsView::MMeNc1(s) => objs_wf(s),
            ObjectsView::MMeTc1(s) => objs_wf(s),
            ObjectsView::MItNa1(s) => objs_wf(s),
            ObjectsView::MEpTa1(s) => objs_wf(s),
            ObjectsView::MEpTb1(s) => objs_wf(s),
            ObjectsView::MEpTc1(s) => objs_wf(s),
            ObjectsView::MPsNa1(s) => objs_wf(s),
            ObjectsView::MMeNd1(s) => objs_wf(s),
            ObjectsView::MSpTb1(s) => objs_wf(s),
            ObjectsView::MDpTb1(s) => objs_wf(s),
            ObjectsView::MStTb1(s) => objs_wf(s),
            ObjectsView::MBoTb1(s) => objs_wf(s),
            ObjectsView::MMeTd1(s) => objs_wf(s),
            ObjectsView::MMeTe1(s) => objs_wf(s),
            ObjectsView::MMeTf1(s) => objs_wf(s),
            ObjectsView::MItTb1(s) => objs_wf(s),
            ObjectsView::MEpTd1(s) => objs_wf(s),
            ObjectsView::MEpTe1(s) => objs_wf(s),
            ObjectsView::MEpTf1(s) => objs_wf(s),
            ObjectsView::MEiNa1(s) => objs_wf(s),
            ObjectsView::CScNa1(s) => objs_wf(s),
            ObjectsView::CdcNa1(s) => objs_wf(s),
            ObjectsView::CrcNa1(s) => objs_wf(s),
            ObjectsView::CSeNa1(s) => objs_wf(s),
            ObjectsView::CSeNb1(s) => objs_wf(s),
            ObjectsView::CSeNc1(s) => objs_wf(s),
            ObjectsView::CBoNa1(s) => objs_wf(s),
            ObjectsView::CScTa1(s) => objs_wf(s),
            ObjectsView::CdcTa1(s) => objs_wf(s),
            ObjectsView::CrcTa1(s) => objs_wf(s),
            ObjectsView::CSeTa1(s) => objs_wf(s),
            ObjectsView::CSeTb1(s) => objs_wf(s),
            ObjectsView::CSeTc1(s) => objs_wf(s),
            ObjectsView::CBoTa1(s) => objs_wf(s),
            ObjectsView::CIcNa1(s) => objs_wf(s),
            ObjectsView::CCiNa1(s) => objs_wf(s),
            ObjectsView::CRdNa1(s) => objs_wf(s),
            ObjectsView::CCsNa1(s) => objs_wf(s),
            ObjectsView::CTsNa1(s) => objs_wf(s),
            ObjectsView::CRpNa1(s) => objs_wf(s),
            ObjectsView::CCdNa1(s) => objs_wf(s),
            ObjectsView::CTsTa1(s) => objs_wf(s),
            ObjectsView::PMeNa1(s) => objs_wf(s),
            ObjectsView::PMeNb1(s) => objs_wf(s),
            ObjectsView::PMeNc1(s) => objs_wf(s),
            ObjectsView::PAcNa1(s) => objs_wf(s),
        }
    }

    /// Addresses run consecutively from the first object.
    pub open spec fn consecutive(self) -> bool {
        match self {
            ObjectsView::MSpNa1(s) => objs_consecutive(s),
            ObjectsView::MSpTa1(s) => objs_consecutive(s),
            ObjectsView::MDpNa1(s) => objs_consecutive(s),
            ObjectsView::MDpTa1(s) => objs_consecutive(s),
            ObjectsView::MStNa1(s) => objs_consecutive(s),
            ObjectsView::MStTa1(s) => objs_consecutive(s),
            ObjectsView::MBoNa1(s) => objs_consecutive(s),
            ObjectsView::MMeNa1(s) => objs_consecutive(s),
            ObjectsView::MMeTa1(s) => objs_consecutive(s),
            ObjectsView::MMeNb1(s) => objs_consecutive(s),
            ObjectsView::MMeTb1(s) => objs_consecutive(s),
            ObjectsView::MMeNc1(s) => objs_consecutive(s),
            ObjectsView::MMeTc1(s) => objs_consecutive(s),
            ObjectsView::MItNa1(s) => objs_consecutive(s),
            ObjectsView::MEpTa1(s) => objs_consecutive(s),
            ObjectsView::MEpTb1(s) => objs_consecutive(s),
            ObjectsView::MEpTc1(s) => objs_consecutive(s),
            ObjectsView::MPsNa1(s) => objs_consecutive(s),
            ObjectsView::MMeNd1(s) => objs_consecutive(s),
            ObjectsView::MSpTb1(s) => objs_consecutive(s),
            ObjectsView::MDpTb1(s) => objs_consecutive(s),
            ObjectsView::MStTb1(s) => objs_consecutive(s),
            ObjectsView::MBoTb1(s) => objs_consecutive(s),
            ObjectsView::MMeTd1(s) => objs_consecutive(s),
            ObjectsView::MMeTe1(s) => objs_consecutive(s),
            ObjectsView::MMeTf1(s) => objs_consecutive(s),
            ObjectsView::MItTb1(s) => objs_consecutive(s),
            ObjectsView::MEpTd1(s) => objs_consecutive(s),
            ObjectsView::MEpTe1(s) => objs_consecutive(s),
            ObjectsView::MEpTf1(s) => objs_consecutive(s),
            ObjectsView::MEiNa1(s) => objs_consecutive(s),
            ObjectsView::CScNa1(s) => objs_consecutive(s),
            ObjectsView::CdcNa1(s) => objs_consecutive(s),
            ObjectsView::CrcNa1(s) => objs_consecutive(s),
            ObjectsView::CSeNa1(s) => objs_consecutive(s),
            ObjectsView::CSeNb1(s) => objs_consecutive(s),
            ObjectsView::CSeNc1(s) => objs_consecutive(s),
            ObjectsView::CBoNa1(s) => objs_consecutive(s),
            ObjectsView::CScTa1(s) => objs_consecutive(s),
            ObjectsView::CdcTa1(s) => objs_consecutive(s),
            ObjectsView::CrcTa1(s) => objs_consecutive(s),
            ObjectsView::CSeTa1(s) => objs_consecutive(s),
            ObjectsView::CSeTb1(s) => objs_consecutive(s),
            ObjectsView::CSeTc1(s) => objs_consecutive(s),
            ObjectsView::CBoTa1(s) => objs_consecutive(s),
            ObjectsView::CIcNa1(s) => objs_consecutive(s),
            ObjectsView::CCiNa1(s) => objs_consecutive(s),
            ObjectsView::CRdNa1(s) => objs_consecutive(s),
            ObjectsView::CCsNa1(s) => objs_consecutive(s),
            ObjectsView::CTsNa1(s) => objs_consecutive(s),
            ObjectsView::CRpNa1(s) => objs_consecutive(s),
            ObjectsView::CCdNa1(s) => objs_consecutive(s),
            ObjectsView::CTsTa1(s) => objs_consecutive(s),
            ObjectsView::PMeNa1(s) => objs_consecutive(s),
            ObjectsView::PMeNb1(s) => objs_consecutive(s),
            ObjectsView::PMeNc1(s) => objs_consecutive(s),
            ObjectsView::PAcNa1(s) => objs_consecutive(s),
        }
    }

    /// The wire form of the list, in the given addressing mode.
    pub open spec fn enc(self, sequence: bool) -> Seq<u8> {
        match self {
            ObjectsView::MSpNa1(s) => if sequence {
                objs_enc_seq(s)
            } else {
                objs_enc_multi(s)
            },
            ObjectsView::MSpTa1(s) => if sequence {
                objs_enc_seq(s)
            } else {
                objs_enc_multi(s)
            },
            ObjectsView::MDpNa1(s) => if sequence {
                objs_enc_seq(s)
            } else {
                objs_enc_multi(s)
            },
            ObjectsView::MDpTa1(s) => if sequence {
                objs_enc_seq(s)
            } else {
                objs_enc_multi(s)
            },
            ObjectsView::MStNa1(s) => if sequence {
                objs_enc_seq(s)
            } else {
                objs_enc_multi(s)
            },
            ObjectsView::MStTa1(s) => if sequence {
                objs_enc_seq(s)
            } else {
                objs_enc_multi(s)
            },
            ObjectsView::MBoNa1(s) => if sequence {
                objs_enc_seq(s)
            } else {
                objs_enc_multi(s)
            },
            ObjectsView::MMeNa1(s) => if sequence {
                objs_enc_seq(s)
            } else {
                objs_enc_multi(s)
            },
            ObjectsView::MMeTa1(s) => if sequence {
                objs_enc_seq(s)
            } else {
                objs_enc_multi(s)
            },
            ObjectsView::MMeNb1(s) => if sequence {
                objs_enc_seq(s)
            } else {
                objs_enc_multi(s)
            },
            ObjectsView::MMeTb1(s) => if sequence {
                objs_enc_seq(s)
            } else {
                objs_enc_multi(s)
            },
            ObjectsView::MMeNc1(s) => if sequence {
                objs_enc_seq(s)
            } else {
                objs_enc_multi(s)
            },
            ObjectsView::MMeTc1(s) => if sequence {
                objs_enc_seq(s)
            } else {
                objs_enc_multi(s)
            },
            ObjectsView::MItNa1(s) => if sequence {
                objs_enc_seq(s)
            } else {
                objs_enc_multi(s)
            },
            ObjectsView::MEpTa1(s) => if sequence {
                objs_enc_seq(s)
            } else {
                objs_enc_multi(s)
            },
            ObjectsView::MEpTb1(s) => if sequence {
                objs_enc_seq(s)
            } else {
                objs_enc_multi(s)
            },
            ObjectsView::MEpTc1(s) => if sequence {
                objs_enc_seq(s)
            } else {
                objs_enc_multi(s)
            },
            ObjectsView::MPsNa1(s) => if sequence {
                objs_enc_seq(s)
            } else {
                objs_enc_multi(s)
            },
            ObjectsView::MMeNd1(s) => if sequence {
                objs_enc_seq(s)
            } else {
                objs_enc_multi(s)
            },
            ObjectsView::MSpTb1(s) => if sequence {
                objs_enc_seq(s)
            } else {
                objs_enc_multi(s)
            },
            ObjectsView::MDpTb1(s) => if sequence {
                objs_enc_seq(s)
            } else {
                objs_enc_multi(s)
            },
            ObjectsView::MStTb1(s) => if sequence {
                objs_enc_seq(s)
            } else {
                objs_enc_multi(s)
            },
            ObjectsView::MBoTb1(s) => if sequence {
                objs_enc_seq(s)
            } else {
                objs_enc_multi(s)
            },
            ObjectsView::MMeTd1(s) => if sequence {
                objs_enc_seq(s)
            } else {
                objs_enc_multi(s)
            },
            ObjectsView::MMeTe1(s) => if sequence {
                objs_enc_seq(s)
            } else {
                objs_enc_multi(s)
            },
            ObjectsView::MMeTf1(s) => if sequence {
                objs_enc_seq(s)
            } else {
                objs_enc_multi(s)
            },
            ObjectsView::MItTb1(s) => if sequence {
                objs_enc_seq(s)
            } else {
                objs_enc_multi(s)
            },
            ObjectsView::MEpTd1(s) => if sequence {
                objs_enc_seq(s)
            } else {
                objs_enc_multi(s)
            },
            ObjectsView::MEpTe1(s) => if sequence {
                objs_enc_seq(s)
            } else {
                objs_enc_multi(s)
            },
            ObjectsView::MEpTf1(s) => if sequence {
                objs_enc_seq(s)
            } else {
                objs_enc_multi(s)
            },
            ObjectsView::MEiNa1(s) => if sequence {
                objs_enc_seq(s)
            } else {
                objs_enc_multi(s)
            },
            ObjectsView::CScNa1(s) => if sequence {
                objs_enc_seq(s)
            } else {
                objs_enc_multi(s)
            },
            ObjectsView::CdcNa1(s) => if sequence {
                objs_enc_seq(s)
            } else {
                objs_enc_multi(s)
            },
            ObjectsView::CrcNa1(s) => if sequence {
                objs_enc_seq(s)
            } else {
                objs_enc_multi(s)
            },
            ObjectsView::CSeNa1(s) => if sequence {
                objs_enc_seq(s)
            } else {
                objs_enc_multi(s)
            },
            ObjectsView::CSeNb1(s) => if sequence {
                objs_enc_seq(s)
            } else {
                objs_enc_multi(s)
            },
            ObjectsView::CSeNc1(s) => if sequence {
                objs_enc_seq(s)
            } else {
                objs_enc_multi(s)
            },
            ObjectsView::CBoNa1(s) => if sequence {
                objs_enc_seq(s)
            } else {
                objs_enc_multi(s)
            },
            ObjectsView::CScTa1(s) => if sequence {
                objs_enc_seq(s)
            } else {
                objs_enc_multi(s)
            },
            ObjectsView::CdcTa1(s) => if sequence {
                objs_enc_seq(s)
            } else {
                objs_enc_multi(s)
            },
            ObjectsView::CrcTa1(s) => if sequence {
                objs_enc_seq(s)
            } else {
                objs_enc_multi(s)
            },
            ObjectsView::CSeTa1(s) => if sequence {
                objs_enc_seq(s)
            } else {
                objs_enc_multi(s)
            },
            ObjectsView::CSeTb1(s) => if sequence {
                objs_enc_seq(s)
            } else {
                objs_enc_multi(s)
            },
            ObjectsView::CSeTc1(s) => if sequence {
                objs_enc_seq(s)
            } else {
                objs_enc_multi(s)
            },
            ObjectsView::CBoTa1(s) => if sequence {
                objs_enc_seq(s)
            } else {
                objs_enc_multi(s)
            },
            ObjectsView::CIcNa1(s) => if sequence {
                objs_enc_seq(s)
            } else {
                objs_enc_multi(s)
            },
            ObjectsView::CCiNa1(s) => if sequence {
                objs_enc_seq(s)
            } else {
                objs_enc_multi(s)
            },
            ObjectsView::CRdNa1(s) => if sequence {
                objs_enc_seq(s)
            } else {
                objs_enc_multi(s)
            },
            ObjectsView::CCsNa1(s) => if sequence {
                objs_enc_seq(s)
            } else {
                objs_enc_multi(s)
            },
            ObjectsView::CTsNa1(s) => if sequence {
                objs_enc_seq(s)
            } else {
                objs_enc_multi(s)
            },
            ObjectsView::CRpNa1(s) => if sequence {
                objs_enc_seq(s)
            } else {
                objs_enc_multi(s)
            },
            ObjectsView::CCdNa1(s) => if sequence {
                objs_enc_seq(s)
            } else {
                objs_enc_multi(s)
            },
            ObjectsView::CTsTa1(s) => if sequence {
                objs_enc_seq(s)
            } else {
                objs_enc_multi(s)
            },
            ObjectsView::PMeNa1(s) => if sequence {
                objs_enc_seq(s)
            } else {
                objs_enc_multi(s)
            },
            ObjectsView::PMeNb1(s) => if sequence {
                objs_enc_seq(s)
            } else {
                objs_enc_multi(s)
            },
            ObjectsView::PMeNc1(s) => if sequence {
                objs_enc_seq(s)
            } else {
                objs_enc_multi(s)
            },
            ObjectsView::PAcNa1(s) => if sequence {
                objs_enc_seq(s)
            } else {
                objs_enc_multi(s)
            },
        }
    }

    /// What object bytes decode to for a given type and addressing mode;
    /// file-transfer types are not supported and non-standard types are
    /// rejected outright. The catalog is cut into slices, each behind its
    /// own opaque decoder, so that no single verification condition has
    /// to unfold the whole catalog.
    pub open spec fn dec(type_id: TypeId, sequence: bool, n: u8, b: Seq<u8>) -> Result<
        ObjectsView,
        ParseError,
    > {
        if ObjectsView::in_dec_slice0(type_id) {
            ObjectsView::dec_slice0(type_id, sequence, n, b)
        } else if ObjectsView::in_dec_slice1(type_id) {
            ObjectsView::dec_slice1(type_id, sequence, n, b)
        } else if ObjectsView::in_dec_slice2(type_id) {
            ObjectsView::dec_slice2(type_id, sequence, n, b)
        } else if ObjectsView::in_dec_slice3(type_id) {
            ObjectsView::dec_slice3(type_id, sequence, n, b)
        } else if ObjectsView::in_dec_slice4(type_id) {
            ObjectsView::dec_slice4(type_id, sequence, n, b)
        } else if ObjectsView::in_dec_slice5(type_id) {
            ObjectsView::dec_slice5(type_id, sequence, n, b)
        } else if ObjectsView::in_dec_slice6(type_id) {
            ObjectsView::dec_slice6(type_id, sequence, n, b)
        } else if ObjectsView::in_dec_slice7(type_id) {
            ObjectsView::dec_slice7(type_id, sequence, n, b)
        } else if type_id is F_FR_NA_1 || type_id is F_SR_NA_1 || type_id is F_SC_NA_1 || type_id is F_LS_NA_1 || type_id is F_FA_NA_1 || type_id is F_SG_NA_1 || type_id is F_DR_TA_1 {
            Err(ParseError::NotImplemented)
        } else {
            Err(ParseError::InvalidType)
        }
    }

    /// Whether a type belongs to slice 0 of the decode catalog.
    pub open spec fn in_dec_slice0(type_id: TypeId) -> bool {
        match type_id {
            TypeId::M_SP_NA_1
            | TypeId::M_SP_TA_1
            | TypeId::M_DP_NA_1
            | TypeId::M_DP_TA_1
            | TypeId::M_ST_NA_1
            | TypeId::M_ST_TA_1
            | TypeId::M_BO_NA_1
            | TypeId::M_ME_NA_1 => true,
            _ => false,
        }
    }

    /// Slice 0 of the decode catalog.
    #[verifier::opaque]
    pub open spec fn dec_slice0(type_id: TypeId, sequence: bool, n: u8, b: Seq<u8>) -> Result<
        ObjectsView,
        ParseError,
    > {
        match type_id {
            TypeId::M_SP_NA_1 => match (if sequence {
                objs_dec_seq::<measurements::MSpNa1>(b, n)
            } else {
                objs_dec_multi::<measurements::MSpNa1>(b)
            }) {
                Ok(s) => Ok(ObjectsView::MSpNa1(s)),
                Err(e) => Err(e),
            },
            TypeId::M_SP_TA_1 => match (if sequence {
                objs_dec_seq::<measurements::MSpTa1>(b, n)
            } else {
                objs_dec_multi::<measurements::MSpTa1>(b)
            }) {
                Ok(s) => Ok(ObjectsView::MSpTa1(s)),
                Err(e) => Err(e),
            },
            TypeId::M_DP_NA_1 => match (if sequence {
                objs_dec_seq::<measurements::MDpNa1>(b, n)
            } else {
                objs_dec_multi::<measurements::MDpNa1>(b)
            }) {
                Ok(s) => Ok(ObjectsView::MDpNa1(s)),
                Err(e) => Err(e),
            },
            TypeId::M_DP_TA_1 => match (if sequence {
                objs_dec_seq::<measurements::MDpTa1>(b, n)
            } else {
                objs_dec_multi::<measurements::MDpTa1>(b)
            }) {
                Ok(s) => Ok(ObjectsView::MDpTa1(s)),
                Err(e) => Err(e),
            },
            TypeId::M_ST_NA_1 => match (if sequence {
                objs_dec_seq::<measurements::MStNa1>(b, n)
            } else {
                objs_dec_multi::<measurements::MStNa1>(b)
            }) {
                Ok(s) => Ok(ObjectsView::MStNa1(s)),
                Err(e) => Err(e),
            },
            TypeId::M_ST_TA_1 => match (if sequence {
                objs_dec_seq::<measurements::MStTa1>(b, n)
            } else {
                objs_dec_multi::<measurements::MStTa1>(b)
            }) {
                Ok(s) => Ok(ObjectsView::MStTa1(s)),
                Err(e) => Err(e),
            },
            TypeId::M_BO_NA_1 => match (if sequence {
                objs_dec_seq::<measurements::MBoNa1>(b, n)
            } else {
                objs_dec_multi::<measurements::MBoNa1>(b)
            }) {
                Ok(s) => Ok(ObjectsView::MBoNa1(s)),
                Err(e) => Err(e),
            },
            TypeId::M_ME_NA_1 => match (if sequence {
                objs_dec_seq::<measurements::MMeNa1>(b, n)
            } else {
                objs_dec_multi::<measurements::MMeNa1>(b)
            }) {
                Ok(s) => Ok(ObjectsView::MMeNa1(s)),
                Err(e) => Err(e),
            },
            _ => Err(ParseError::InvalidType),
        }
    }

    /// Whether a type belongs to slice 1 of the decode catalog.
    pub open spec fn in_dec_slice1(type_id: TypeId) -> bool {
        match type_id {
            TypeId::M_ME_TA_1
            | TypeId::M_ME_NB_1
            | TypeId::M_ME_TB_1
            | TypeId::M_ME_NC_1
            | TypeId::M_ME_TC_1
            | TypeId::M_IT_NA_1
            | TypeId::M_EP_TA_1
            | TypeId::M_EP_TB_1 => true,
            _ => false,
        }
    }

    /// Slice 1 of the decode catalog.
    #[verifier::opaque]
    pub open spec fn dec_slice1(type_id: TypeId, sequence: bool, n: u8, b: Seq<u8>) -> Result<
        ObjectsView,
        ParseError,
    > {
        match type_id {
            TypeId::M_ME_TA_1 => match (if sequence {
                objs_dec_seq::<measurements::MMeTa1>(b, n)
            } else {
                objs_dec_multi::<measurements::MMeTa1>(b)
            }) {
                Ok(s) => Ok(ObjectsView::MMeTa1(s)),
                Err(e) => Err(e),
            },
            TypeId::M_ME_NB_1 => match (if sequence {
                objs_dec_seq::<measurements::MMeNb1>(b, n)
            } else {
                objs_dec_multi::<measurements::MMeNb1>(b)
            }) {
                Ok(s) => Ok(ObjectsView::MMeNb1(s)),
                Err(e) => Err(e),
            },
            TypeId::M_ME_TB_1 => match (if sequence {
                objs_dec_seq::<measurements::MMeTb1>(b, n)
            } else {
                objs_dec_multi::<measurements::MMeTb1>(b)
            }) {
                Ok(s) => Ok(ObjectsView::MMeTb1(s)),
                Err(e) => Err(e),
            },
            TypeId::M_ME_NC_1 => match (if sequence {
                objs_dec_seq::<measurements::MMeNc1>(b, n)
            } else {
                objs_dec_multi::<measurements::MMeNc1>(b)
            }) {
                Ok(s) => Ok(ObjectsView::MMeNc1(s)),
                Err(e) => Err(e),
            },
            TypeId::M_ME_TC_1 => match (if sequence {
                objs_dec_seq::<measurements::MMeTc1>(b, n)
            } else {
                objs_dec_multi::<measurements::MMeTc1>(b)
            }) {
                Ok(s) => Ok(ObjectsView::MMeTc1(s)),
                Err(e) => Err(e),
            },
            TypeId::M_IT_NA_1 => match (if sequence {
                objs_dec_seq::<measurements::MItNa1>(b, n)
            } else {
                objs_dec_multi::<measurements::MItNa1>(b)
            }) {
                Ok(s) => Ok(ObjectsView::MItNa1(s)),
                Err(e) => Err(e),
            },
            TypeId::M_EP_TA_1 => match (if sequence {
                objs_dec_seq::<measurements::MEpTa1>(b, n)
            } else {
                objs_dec_multi::<measurements::MEpTa1>(b)
            }) {
                Ok(s) => Ok(ObjectsView::MEpTa1(s)),
                Err(e) => Err(e),
            },
            TypeId::M_EP_TB_1 => match (if sequence {
                objs_dec_seq::<measurements::MEpTb1>(b, n)
            } else {
                objs_dec_multi::<measurements::MEpTb1>(b)
            }) {
                Ok(s) => Ok(ObjectsView::MEpTb1(s)),
                Err(e) => Err(e),
            },
            _ => Err(ParseError::InvalidType),
        }
    }

    /// Whether a type belongs to slice 2 of the decode catalog.
    pub open spec fn in_dec_slice2(type_id: TypeId) -> bool {
        match type_id {
            TypeId::M_EP_TC_1
            | TypeId::M_PS_NA_1
            | TypeId::M_ME_ND_1
            | TypeId::M_SP_TB_1
            | TypeId::M_DP_TB_1
            | TypeId::M_ST_TB_1
            | TypeId::M_BO_TB_1
            | TypeId::M_ME_TD_1 => true,
            _ => false,
        }
    }

    /// Slice 2 of the decode catalog.
    #[verifier::opaque]
    pub open spec fn dec_slice2(type_id: TypeId, sequence: bool, n: u8, b: Seq<u8>) -> Result<
        ObjectsView,
        ParseError,
    > {
        match type_id {
            TypeId::M_EP_TC_1 => match (if sequence {
                objs_dec_seq::<measurements::MEpTc1>(b, n)
            } else {
                objs_dec_multi::<measurements::MEpTc1>(b)
            }) {
                Ok(s) => Ok(ObjectsView::MEpTc1(s)),
                Err(e) => Err(e),
            },
            TypeId::M_PS_NA_1 => match (if sequence {
                objs_dec_seq::<measurements::MPsNa1>(b, n)
            } else {
                objs_dec_multi::<measurements::MPsNa1>(b)
            }) {
                Ok(s) => Ok(ObjectsView::MPsNa1(s)),
                Err(e) => Err(e),
            },
            TypeId::M_ME_ND_1 => match (if sequence {
                objs_dec_seq::<measurements::MMeNd1>(b, n)
            } else {
                objs_dec_multi::<measurements::MMeNd1>(b)
            }) {
                Ok(s) => Ok(ObjectsView::MMeNd1(s)),
                Err(e) => Err(e),
            },
            TypeId::M_SP_TB_1 => match (if sequence {
                objs_dec_seq::<measurements::MSpTb1>(b, n)
            } else {
                objs_dec_multi::<measurements::MSpTb1>(b)
            }) {
                Ok(s) => Ok(ObjectsView::MSpTb1(s)),
                Err(e) => Err(e),
            },
            TypeId::M_DP_TB_1 => match (if sequence {
                objs_dec_seq::<measurements::MDpTb1>(b, n)
            } else {
                objs_dec_multi::<measurements::MDpTb1>(b)
            }) {
                Ok(s) => Ok(ObjectsView::MDpTb1(s)),
                Err(e) => Err(e),
            },
            TypeId::M_ST_TB_1 => match (if sequence {
                objs_dec_seq::<measurements::MStTb1>(b, n)
            } else {
                objs_dec_multi::<measurements::MStTb1>(b)
            }) {
                Ok(s) => Ok(ObjectsView::MStTb1(s)),
                Err(e) => Err(e),
            },
            TypeId::M_BO_TB_1 => match (if sequence {
                objs_dec_seq::<measurements::MBoTb1>(b, n)
            } else {
                objs_dec_multi::<measurements::MBoTb1>(b)
            }) {
                Ok(s) => Ok(ObjectsView::MBoTb1(s)),
                Err(e) => Err(e),
            },
            TypeId::M_ME_TD_1 => match (if sequence {
                objs_dec_seq::<measurements::MMeTd1>(b, n)
            } else {
                objs_dec_multi::<measurements::MMeTd1>(b)
            }) {
                Ok(s) => Ok(ObjectsView::MMeTd1(s)),
                Err(e) => Err(e),
            },
            _ => Err(ParseError::InvalidType),
        }
    }

    /// Whether a type belongs to slice 3 of the decode catalog.
    pub open spec fn in_dec_slice3(type_id: TypeId) -> bool {
        match type_id {
            TypeId::M_ME_TE_1
            | TypeId::M_ME_TF_1
            | TypeId::M_IT_TB_1
            | TypeId::M_EP_TD_1
            | TypeId::M_EP_TE_1
            | TypeId::M_EP_TF_1
            | TypeId::M_EI_NA_1
            | TypeId::C_SC_NA_1 => true,
            _ => false,
        }
    }

    /// Slice 3 of the decode catalog.
    #[verifier::opaque]
    pub open spec fn dec_slice3(type_id: TypeId, sequence: bool, n: u8, b: Seq<u8>) -> Result<
        ObjectsView,
        ParseError,
    > {
        match type_id {
            TypeId::M_ME_TE_1 => match (if sequence {
                objs_dec_seq::<measurements::MMeTe1>(b, n)
            } else {
                objs_dec_multi::<measurements::MMeTe1>(b)
            }) {
                Ok(s) => Ok(ObjectsView::MMeTe1(s)),
                Err(e) => Err(e),
            },
            TypeId::M_ME_TF_1 => match (if sequence {
                objs_dec_seq::<measurements::MMeTf1>(b, n)
            } else {
                objs_dec_multi::<measurements::MMeTf1>(b)
            }) {
                Ok(s) => Ok(ObjectsView::MMeTf1(s)),
                Err(e) => Err(e),
            },
            TypeId::M_IT_TB_1 => match (if sequence {
                objs_dec_seq::<measurements::MItTb1>(b, n)
            } else {
                objs_dec_multi::<measurements::MItTb1>(b)
            }) {
                Ok(s) => Ok(ObjectsView::MItTb1(s)),
                Err(e) => Err(e),
            },
            TypeId::M_EP_TD_1 => match (if sequence {
                objs_dec_seq::<measurements::MEpTd1>(b, n)
            } else {
                objs_dec_multi::<measurements::MEpTd1>(b)
            }) {
                Ok(s) => Ok(ObjectsView::MEpTd1(s)),
                Err(e) => Err(e),
            },
            TypeId::M_EP_TE_1 => match (if sequence {
                objs_dec_seq::<measurements::MEpTe1>(b, n)
            } else {
                objs_dec_multi::<measurements::MEpTe1>(b)
            }) {
                Ok(s) => Ok(ObjectsView::MEpTe1(s)),
                Err(e) => Err(e),
            },
            TypeId::M_EP_TF_1 => match (if sequence {
                objs_dec_seq::<measurements::MEpTf1>(b, n)
            } else {
                objs_dec_multi::<measurements::MEpTf1>(b)
            }) {
                Ok(s) => Ok(ObjectsView::MEpTf1(s)),
                Err(e) => Err(e),
            },
            TypeId::M_EI_NA_1 => match (if sequence {
                objs_dec_seq::<measurements::MEiNa1>(b, n)
            } else {
                objs_dec_multi::<measurements::MEiNa1>(b)
            }) {
                Ok(s) => Ok(ObjectsView::MEiNa1(s)),
                Err(e) => Err(e),
            },
            TypeId::C_SC_NA_1 => match (if sequence {
                objs_dec_seq::<commands::CScNa1>(b, n)
            } else {
                objs_dec_multi::<commands::CScNa1>(b)
            }) {
                Ok(s) => Ok(ObjectsView::CScNa1(s)),
                Err(e) => Err(e),
            },
            _ => Err(ParseError::InvalidType),
        }
    }

    /// Whether a type belongs to slice 4 of the decode catalog.
    pub open spec fn in_dec_slice4(type_id: TypeId) -> bool {
        match type_id {
            TypeId::C_DC_NA_1
            | TypeId::C_RC_NA_1
            | TypeId::C_SE_NA_1
            | TypeId::C_SE_NB_1
            | TypeId::C_SE_NC_1
            | TypeId::C_BO_NA_1
            | TypeId::C_SC_TA_1
            | TypeId::C_DC_TA_1 => true,
            _ => false,
        }
    }

    /// Slice 4 of the decode catalog.
    #[verifier::opaque]
    pub open spec fn dec_slice4(type_id: TypeId, sequence: bool, n: u8, b: Seq<u8>) -> Result<
        ObjectsView,
        ParseError,
    > {
        match type_id {
            TypeId::C_DC_NA_1 => match (if sequence {
                objs_dec_seq::<commands::CdcNa1>(b, n)
            } else {
                objs_dec_multi::<commands::CdcNa1>(b)
            }) {
                Ok(s) => Ok(ObjectsView::CdcNa1(s)),
                Err(e) => Err(e),
            },
            TypeId::C_RC_NA_1 => match (if sequence {
                objs_dec_seq::<commands::CrcNa1>(b, n)
            } else {
                objs_dec_multi::<commands::CrcNa1>(b)
            }) {
                Ok(s) => Ok(ObjectsView::CrcNa1(s)),
                Err(e) => Err(e),
            },
            TypeId::C_SE_NA_1 => match (if sequence {
                objs_dec_seq::<commands::CSeNa1>(b, n)
            } else {
                objs_dec_multi::<commands::CSeNa1>(b)
            }) {
                Ok(s) => Ok(ObjectsView::CSeNa1(s)),
                Err(e) => Err(e),
            },
            TypeId::C_SE_NB_1 => match (if sequence {
                objs_dec_seq::<commands::CSeNb1>(b, n)
            } else {
                objs_dec_multi::<commands::CSeNb1>(b)
            }) {
                Ok(s) => Ok(ObjectsView::CSeNb1(s)),
                Err(e) => Err(e),
            },
            TypeId::C_SE_NC_1 => match (if sequence {
                objs_dec_seq::<commands::CSeNc1>(b, n)
            } else {
                objs_dec_multi::<commands::CSeNc1>(b)
            }) {
                Ok(s) => Ok(ObjectsView::CSeNc1(s)),
                Err(e) => Err(e),
            },
            TypeId::C_BO_NA_1 => match (if sequence {
                objs_dec_seq::<commands::CBoNa1>(b, n)
            } else {
                objs_dec_multi::<commands::CBoNa1>(b)
            }) {
                Ok(s) => Ok(ObjectsView::CBoNa1(s)),
                Err(e) => Err(e),
            },
            TypeId::C_SC_TA_1 => match (if sequence {
                objs_dec_seq::<commands::CScTa1>(b, n)
            } else {
                objs_dec_multi::<commands::CScTa1>(b)
            }) {
                Ok(s) => Ok(ObjectsView::CScTa1(s)),
                Err(e) => Err(e),
            },
            TypeId::C_DC_TA_1 => match (if sequence {
                objs_dec_seq::<commands::CdcTa1>(b, n)
            } else {
                objs_dec_multi::<commands::CdcTa1>(b)
            }) {
                Ok(s) => Ok(ObjectsView::CdcTa1(s)),
                Err(e) => Err(e),
            },
            _ => Err(ParseError::InvalidType),
        }
    }

    /// Whether a type belongs to slice 5 of the decode catalog.
    pub open spec fn in_dec_slice5(type_id: TypeId) -> bool {
        match type_id {
            TypeId::C_RC_TA_1
            | TypeId::C_SE_TA_1
            | TypeId::C_SE_TB_1
            | TypeId::C_SE_TC_1
            | TypeId::C_BO_TA_1
            | TypeId::C_IC_NA_1
            | TypeId::C_CI_NA_1
            | TypeId::C_RD_NA_1 => true,
            _ => false,
        }
    }

    /// Slice 5 of the decode catalog.
    #[verifier::opaque]
    pub open spec fn dec_slice5(type_id: TypeId, sequence: bool, n: u8, b: Seq<u8>) -> Result<
        ObjectsView,
        ParseError,
    > {
        match type_id {
            TypeId::C_RC_TA_1 => match (if sequence {
                objs_dec_seq::<commands::CrcTa1>(b, n)
            } else {
                objs_dec_multi::<commands::CrcTa1>(b)
            }) {
                Ok(s) => Ok(ObjectsView::CrcTa1(s)),
                Err(e) => Err(e),
            },
            TypeId::C_SE_TA_1 => match (if sequence {
                objs_dec_seq::<commands::CSeTa1>(b, n)
            } else {
                objs_dec_multi::<commands::CSeTa1>(b)
            }) {
                Ok(s) => Ok(ObjectsView::CSeTa1(s)),
                Err(e) => Err(e),
            },
            TypeId::C_SE_TB_1 => match (if sequence {
                objs_dec_seq::<commands::CSeTb1>(b, n)
            } else {
                objs_dec_multi::<commands::CSeTb1>(b)
            }) {
                Ok(s) => Ok(ObjectsView::CSeTb1(s)),
                Err(e) => Err(e),
            },
            TypeId::C_SE_TC_1 => match (if sequence {
                objs_dec_seq::<commands::CSeTc1>(b, n)
            } else {
                objs_dec_multi::<commands::CSeTc1>(b)
            }) {
                Ok(s) => Ok(ObjectsView::CSeTc1(s)),
                Err(e) => Err(e),
            },
            TypeId::C_BO_TA_1 => match (if sequence {
                objs_dec_seq::<commands::CBoTa1>(b, n)
            } else {
                objs_dec_multi::<commands::CBoTa1>(b)
            }) {
                Ok(s) => Ok(ObjectsView::CBoTa1(s)),
                Err(e) => Err(e),
            },
            TypeId::C_IC_NA_1 => match (if sequence {
                objs_dec_seq::<commands::CIcNa1>(b, n)
            } else {
                objs_dec_multi::<commands::CIcNa1>(b)
            }) {
                Ok(s) => Ok(ObjectsView::CIcNa1(s)),
                Err(e) => Err(e),
            },
            TypeId::C_CI_NA_1 => match (if sequence {
                objs_dec_seq::<commands::CCiNa1>(b, n)
            } else {
                objs_dec_multi::<commands::CCiNa1>(b)
            }) {
                Ok(s) => Ok(ObjectsView::CCiNa1(s)),
                Err(e) => Err(e),
            },
            TypeId::C_RD_NA_1 => match (if sequence {
                objs_dec_seq::<commands::CRdNa1>(b, n)
            } else {
                objs_dec_multi::<commands::CRdNa1>(b)
            }) {
                Ok(s) => Ok(ObjectsView::CRdNa1(s)),
                Err(e) => Err(e),
            },
            _ => Err(ParseError::InvalidType),
        }
    }

    /// Whether a type belongs to slice 6 of the decode catalog.
    pub open spec fn in_dec_slice6(type_id: TypeId) -> bool {
        match type_id {
            TypeId::C_CS_NA_1
            | TypeId::C_TS_NA_1
            | TypeId::C_RP_NA_1
            | TypeId::C_CD_NA_1
            | TypeId::C_TS_TA_1
            | TypeId::P_ME_NA_1
            | TypeId::P_ME_NB_1
            | TypeId::P_ME_NC_1 => true,
            _ => false,
        }
    }

    /// Slice 6 of the decode catalog.
    #[verifier::opaque]
    pub open spec fn dec_slice6(type_id: TypeId, sequence: bool, n: u8, b: Seq<u8>) -> Result<
        ObjectsView,
        ParseError,
    > {
        match type_id {
            TypeId::C_CS_NA_1 => match (if sequence {
                objs_dec_seq::<commands::CCsNa1>(b, n)
            } else {
                objs_dec_multi::<commands::CCsNa1>(b)
            }) {
                Ok(s) => Ok(ObjectsView::CCsNa1(s)),
                Err(e) => Err(e),
            },
            TypeId::C_TS_NA_1 => match (if sequence {
                objs_dec_seq::<commands::CTsNa1>(b, n)
            } else {
                objs_dec_multi::<commands::CTsNa1>(b)
            }) {
                Ok(s) => Ok(ObjectsView::CTsNa1(s)),
                Err(e) => Err(e),
            },
            TypeId::C_RP_NA_1 => match (if sequence {
                objs_dec_seq::<commands::CRpNa1>(b, n)
            } else {
                objs_dec_multi::<commands::CRpNa1>(b)
            }) {
                Ok(s) => Ok(ObjectsView::CRpNa1(s)),
                Err(e) => Err(e),
            },
            TypeId::C_CD_NA_1 => match (if sequence {
                objs_dec_seq::<commands::CCdNa1>(b, n)
            } else {
                objs_dec_multi::<commands::CCdNa1>(b)
            }) {
                Ok(s) => Ok(ObjectsView::CCdNa1(s)),
                Err(e) => Err(e),
            },
            TypeId::C_TS_TA_1 => match (if sequence {
                objs_dec_seq::<commands::CTsTa1>(b, n)
            } else {
                objs_dec_multi::<commands::CTsTa1>(b)
            }) {
                Ok(s) => Ok(ObjectsView::CTsTa1(s)),
                Err(e) => Err(e),
            },
            TypeId::P_ME_NA_1 => match (if sequence {
                objs_dec_seq::<parameters::PMeNa1>(b, n)
            } else {
                objs_dec_multi::<parameters::PMeNa1>(b)
            }) {
                Ok(s) => Ok(ObjectsView::PMeNa1(s)),
                Err(e) => Err(e),
            },
            TypeId::P_ME_NB_1 => match (if sequence {
                objs_dec_seq::<parameters::PMeNb1>(b, n)
            } else {
                objs_dec_multi::<parameters::PMeNb1>(b)
            }) {
                Ok(s) => Ok(ObjectsView::PMeNb1(s)),
                Err(e) => Err(e),
            },
            TypeId::P_ME_NC_1 => match (if sequence {
                objs_dec_seq::<parameters::PMeNc1>(b, n)
            } else {
                objs_dec_multi::<parameters::PMeNc1>(b)
            }) {
                Ok(s) => Ok(ObjectsView::PMeNc1(s)),
                Err(e) => Err(e),
            },
            _ => Err(ParseError::InvalidType),
        }
    }

    /// Whether a type belongs to slice 7 of the decode catalog.
    pub open spec fn in_dec_slice7(type_id: TypeId) -> bool {
        match type_id {
            TypeId::P_AC_NA_1 => true,
            _ => false,
        }
    }

    /// Slice 7 of the decode catalog.
    #[verifier::opaque]
    pub open spec fn dec_slice7(type_id: TypeId, sequence: bool, n: u8, b: Seq<u8>) -> Result<
        ObjectsView,
        ParseError,
    > {
        match type_id {
            TypeId::P_AC_NA_1 => match (if sequence {
                objs_dec_seq::<parameters::PAcNa1>(b, n)
            } else {
                objs_dec_multi::<parameters::PAcNa1>(b)
            }) {
                Ok(s) => Ok(ObjectsView::PAcNa1(s)),
                Err(e) => Err(e),
            },
            _ => Err(ParseError::InvalidType),
        }
    }
    /// Object bytes whose every payload chunk is canonical for the type.
    pub open spec fn canon(type_id: TypeId, sequence: bool, b: Seq<u8>) -> bool {
        match type_id {
            TypeId::M_SP_NA_1 => if sequence {
                objs_canon_seq::<measurements::MSpNa1>(b)
            } else {
                objs_canon_multi::<measurements::MSpNa1>(b)
            },
            TypeId::M_SP_TA_1 => if sequence {
                objs_canon_seq::<measurements::MSpTa1>(b)
            } else {
                objs_canon_multi::<measurements::MSpTa1>(b)
            },
            TypeId::M_DP_NA_1 => if sequence {
                objs_canon_seq::<measurements::MDpNa1>(b)
            } else {
                objs_canon_multi::<measurements::MDpNa1>(b)
            },
            TypeId::M_DP_TA_1 => if sequence {
                objs_canon_seq::<measurements::MDpTa1>(b)
            } else {
                objs_canon_multi::<measurements::MDpTa1>(b)
            },
            TypeId::M_ST_NA_1 => if sequence {
                objs_canon_seq::<measurements::MStNa1>(b)
            } else {
                objs_canon_multi::<measurements::MStNa1>(b)
            },
            TypeId::M_ST_TA_1 => if sequence {
                objs_canon_seq::<measurements::MStTa1>(b)
            } else {
                objs_canon_multi::<measurements::MStTa1>(b)
            },
            TypeId::M_BO_NA_1 => if sequence {
                objs_canon_seq::<measurements::MBoNa1>(b)
            } else {
                objs_canon_multi::<measurements::MBoNa1>(b)
            },
            TypeId::M_ME_NA_1 => if sequence {
                objs_canon_seq::<measurements::MMeNa1>(b)
            } else {
                objs_canon_multi::<measurements::MMeNa1>(b)
            },
            TypeId::M_ME_TA_1 => if sequence {
                objs_canon_seq::<measurements::MMeTa1>(b)
            } else {
                objs_canon_multi::<measurements::MMeTa1>(b)
            },
            TypeId::M_ME_NB_1 => if sequence {
                objs_canon_seq::<measurements::MMeNb1>(b)
            } else {
                objs_canon_multi::<measurements::MMeNb1>(b)
            },
            TypeId::M_ME_TB_1 => if sequence {
                objs_canon_seq::<measurements::MMeTb1>(b)
            } else {
                objs_canon_multi::<measurements::MMeTb1>(b)
            },
            TypeId::M_ME_NC_1 => if sequence {
                objs_canon_seq::<measurements::MMeNc1>(b)
            } else {
                objs_canon_multi::<measurements::MMeNc1>(b)
            },
            TypeId::M_ME_TC_1 => if sequence {
                objs_canon_seq::<measurements::MMeTc1>(b)
            } else {
                objs_canon_multi::<measurements::MMeTc1>(b)
            },
            TypeId::M_IT_NA_1 => if sequence {
                objs_canon_seq::<measurements::MItNa1>(b)
            } else {
                objs_canon_multi::<measurements::MItNa1>(b)
            },
            TypeId::M_EP_TA_1 => if sequence {
                objs_canon_seq::<measurements::MEpTa1>(b)
            } else {
                objs_canon_multi::<measurements::MEpTa1>(b)
            },
            TypeId::M_EP_TB_1 => if sequence {
                objs_canon_seq::<measurements::MEpTb1>(b)
            } else {
                objs_canon_multi::<measurements::MEpTb1>(b)
            },
            TypeId::M_EP_TC_1 => if sequence {
                objs_canon_seq::<measurements::MEpTc1>(b)
            } else {
                objs_canon_multi::<measurements::MEpTc1>(b)
            },
            TypeId::M_PS_NA_1 => if sequence {
                objs_canon_seq::<measurements::MPsNa1>(b)
            } else {
                objs_canon_multi::<measurements::MPsNa1>(b)
            },
            TypeId::M_ME_ND_1 => if sequence {
                objs_canon_seq::<measurements::MMeNd1>(b)
            } else {
                objs_canon_multi::<measurements::MMeNd1>(b)
            },
            TypeId::M_SP_TB_1 => if sequence {
                objs_canon_seq::<measurements::MSpTb1>(b)
            } else {
                objs_canon_multi::<measurements::MSpTb1>(b)
            },
            TypeId::M_DP_TB_1 => if sequence {
                objs_canon_seq::<measurements::MDpTb1>(b)
            } else {
                objs_canon_multi::<measurements::MDpTb1>(b)
            },
            TypeId::M_ST_TB_1 => if sequence {
                objs_canon_seq::<measurements::MStTb1>(b)
            } else {
                objs_canon_multi::<measurements::MStTb1>(b)
            },
            TypeId::M_BO_TB_1 => if sequence {
                objs_canon_seq::<measurements::MBoTb1>(b)
            } else {
                objs_canon_multi::<measurements::MBoTb1>(b)
            },
            TypeId::M_ME_TD_1 => if sequence {
                objs_canon_seq::<measurements::MMeTd1>(b)
            } else {
                objs_canon_multi::<measurements::MMeTd1>(b)
            },
            TypeId::M_ME_TE_1 => if sequence {
                objs_canon_seq::<measurements::MMeTe1>(b)
            } else {
                objs_canon_multi::<measurements::MMeTe1>(b)
            },
            TypeId::M_ME_TF_1 => if sequence {
                objs_canon_seq::<measurements::MMeTf1>(b)
            } else {
                objs_canon_multi::<measurements::MMeTf1>(b)
            },
            TypeId::M_IT_TB_1 => if sequence {
                objs_canon_seq::<measurements::MItTb1>(b)
            } else {
                objs_canon_multi::<measurements::MItTb1>(b)
            },
            TypeId::M_EP_TD_1 => if sequence {
                objs_canon_seq::<measurements::MEpTd1>(b)
            } else {
                objs_canon_multi::<measurements::MEpTd1>(b)
            },
            TypeId::M_EP_TE_1 => if sequence {
                objs_canon_seq::<measurements::MEpTe1>(b)
            } else {
                objs_canon_multi::<measurements::MEpTe1>(b)
            },
            TypeId::M_EP_TF_1 => if sequence {
                objs_canon_seq::<measurements::MEpTf1>(b)
            } else {
                objs_canon_multi::<measurements::MEpTf1>(b)
            },
            TypeId::M_EI_NA_1 => if sequence {
                objs_canon_seq::<measurements::MEiNa1>(b)
            } else {
                objs_canon_multi::<measurements::MEiNa1>(b)
            },
            TypeId::C_SC_NA_1 => if sequence {
                objs_canon_seq::<commands::CScNa1>(b)
            } else {
                objs_canon_multi::<commands::CScNa1>(b)
            },
            TypeId::C_DC_NA_1 => if sequence {
                objs_canon_seq::<commands::CdcNa1>(b)
            } else {
                objs_canon_multi::<commands::CdcNa1>(b)
            },
            TypeId::C_RC_NA_1 => if sequence {
                objs_canon_seq::<commands::CrcNa1>(b)
            } else {
                objs_canon_multi::<commands::CrcNa1>(b)
            },
            TypeId::C_SE_NA_1 => if sequence {
                objs_canon_seq::<commands::CSeNa1>(b)
            } else {
                objs_canon_multi::<commands::CSeNa1>(b)
            },
            TypeId::C_SE_NB_1 => if sequence {
                objs_canon_seq::<commands::CSeNb1>(b)
            } else {
                objs_canon_multi::<commands::CSeNb1>(b)
            },
            TypeId::C_SE_NC_1 => if sequence {
                objs_canon_seq::<commands::CSeNc1>(b)
            } else {
                objs_canon_multi::<commands::CSeNc1>(b)
            },
            TypeId::C_BO_NA_1 => if sequence {
                objs_canon_seq::<commands::CBoNa1>(b)
            } else {
                objs_canon_multi::<commands::CBoNa1>(b)
            },
            TypeId::C_SC_TA_1 => if sequence {
                objs_canon_seq::<commands::CScTa1>(b)
            } else {
                objs_canon_multi::<commands::CScTa1>(b)
            },
            TypeId::C_DC_TA_1 => if sequence {
                objs_canon_seq::<commands::CdcTa1>(b)
            } else {
                objs_canon_multi::<commands::CdcTa1>(b)
            },
            TypeId::C_RC_TA_1 => if sequence {
                objs_canon_seq::<commands::CrcTa1>(b)
            } else {
                objs_canon_multi::<commands::CrcTa1>(b)
            },
            TypeId::C_SE_TA_1 => if sequence {
                objs_canon_seq::<commands::CSeTa1>(b)
            } else {
                objs_canon_multi::<commands::CSeTa1>(b)
            },
            TypeId::C_SE_TB_1 => if sequence {
                objs_canon_seq::<commands::CSeTb1>(b)
            } else {
                objs_canon_multi::<commands::CSeTb1>(b)
            },
            TypeId::C_SE_TC_1 => if sequence {
                objs_canon_seq::<commands::CSeTc1>(b)
            } else {
                objs_canon_multi::<commands::CSeTc1>(b)
            },
            TypeId::C_BO_TA_1 => if sequence {
                objs_canon_seq::<commands::CBoTa1>(b)
            } else {
                objs_canon_multi::<commands::CBoTa1>(b)
            },
            TypeId::C_IC_NA_1 => if sequence {
                objs_canon_seq::<commands::CIcNa1>(b)
            } else {
                objs_canon_multi::<commands::CIcNa1>(b)
            },
            TypeId::C_CI_NA_1 => if sequence {
                objs_canon_seq::<commands::CCiNa1>(b)
            } else {
                objs_canon_multi::<commands::CCiNa1>(b)
            },
            TypeId::C_RD_NA_1 => if sequence {
                objs_canon_seq::<commands::CRdNa1>(b)
            } else {
                objs_canon_multi::<commands::CRdNa1>(b)
            },
            TypeId::C_CS_NA_1 => if sequence {
                objs_canon_seq::<commands::CCsNa1>(b)
            } else {
                objs_canon_multi::<commands::CCsNa1>(b)
            },
            TypeId::C_TS_NA_1 => if sequence {
                objs_canon_seq::<commands::CTsNa1>(b)
            } else {
                objs_canon_multi::<commands::CTsNa1>(b)
            },
            TypeId::C_RP_NA_1 => if sequence {
                objs_canon_seq::<commands::CRpNa1>(b)
            } else {
                objs_canon_multi::<commands::CRpNa1>(b)
            },
            TypeId::C_CD_NA_1 => if sequence {
                objs_canon_seq::<commands::CCdNa1>(b)
            } else {
                objs_canon_multi::<commands::CCdNa1>(b)
            },
            TypeId::C_TS_TA_1 => if sequence {
                objs_canon_seq::<commands::CTsTa1>(b)
            } else {
                objs_canon_multi::<commands::CTsTa1>(b)
            },
            TypeId::P_ME_NA_1 => if sequence {
                objs_canon_seq::<parameters::PMeNa1>(b)
            } else {
                objs_canon_multi::<parameters::PMeNa1>(b)
            },
            TypeId::P_ME_NB_1 => if sequence {
                objs_canon_seq::<parameters::PMeNb1>(b)
            } else {
                objs_canon_multi::<parameters::PMeNb1>(b)
            },
            TypeId::P_ME_NC_1 => if sequence {
                objs_canon_seq::<parameters::PMeNc1>(b)
            } else {
                objs_canon_multi::<parameters::PMeNc1>(b)
            },
            TypeId::P_AC_NA_1 => if sequence {
                objs_canon_seq::<parameters::PAcNa1>(b)
            } else {
                objs_canon_multi::<parameters::PAcNa1>(b)
            },
            _ => true,
        }
    }
}

/// The decoded object lists of one ASDU, one variant per supported type.
#[derive(Debug, Clone, PartialEq)]
pub enum InformationObjects {
    /// Objects of type M_SP_NA_1.
    MSpNa1(Vec<GenericObject<measurements::MSpNa1>>),
    /// Objects of type M_SP_TA_1.
    MSpTa1(Vec<GenericObject<measurements::MSpTa1>>),
    /// Objects of type M_DP_NA_1.
    MDpNa1(Vec<GenericObject<measurements::MDpNa1>>),
    /// Objects of type M_DP_TA_1.
    MDpTa1(Vec<GenericObject<measurements::MDpTa1>>),
    /// Objects of type M_ST_NA_1.
    MStNa1(Vec<GenericObject<measurements::MStNa1>>),
    /// Objects of type M_ST_TA_1.
    MStTa1(Vec<GenericObject<measurements::MStTa1>>),
    /// Objects of type M_BO_NA_1.
    MBoNa1(Vec<GenericObject<measurements::MBoNa1>>),
    /// Objects of type M_ME_NA_1.
    MMeNa1(Vec<GenericObject<measurements::MMeNa1>>),
    /// Objects of type M_ME_TA_1.
    MMeTa1(Vec<GenericObject<measurements::MMeTa1>>),
    /// Objects of type M_ME_NB_1.
    MMeNb1(Vec<GenericObject<measurements::MMeNb1>>),
    /// Objects of type M_ME_TB_1.
    MMeTb1(Vec<GenericObject<measurements::MMeTb1>>),
    /// Objects of type M_ME_NC_1.
    MMeNc1(Vec<GenericObject<measurements::MMeNc1>>),
    /// Objects of type M_ME_TC_1.
    MMeTc1(Vec<GenericObject<measurements::MMeTc1>>),
    /// Objects of type M_IT_NA_1.
    MItNa1(Vec<GenericObject<measurements::MItNa1>>),
    /// Objects of type M_EP_TA_1.
    MEpTa1(Vec<GenericObject<measurements::MEpTa1>>),
    /// Objects of type M_EP_TB_1.
    MEpTb1(Vec<GenericObject<measurements::MEpTb1>>),
    /// Objects of type M_EP_TC_1.
    MEpTc1(Vec<GenericObject<measurements::MEpTc1>>),
    /// Objects of type M_PS_NA_1.
    MPsNa1(Vec<GenericObject<measurements::MPsNa1>>),
    /// Objects of type M_ME_ND_1.
    MMeNd1(Vec<GenericObject<measurements::MMeNd1>>),
    /// Objects of type M_SP_TB_1.
    MSpTb1(Vec<GenericObject<measurements::MSpTb1>>),
    /// Objects of type M_DP_TB_1.
    MDpTb1(Vec<GenericObject<measurements::MDpTb1>>),
    /// Objects of type M_ST_TB_1.
    MStTb1(Vec<GenericObject<measurements::MStTb1>>),
    /// Objects of type M_BO_TB_1.
    MBoTb1(Vec<GenericObject<measurements::MBoTb1>>),
    /// Objects of type M_ME_TD_1.
    MMeTd1(Vec<GenericObject<measurements::MMeTd1>>),
    /// Objects of type M_ME_TE_1.
    MMeTe1(Vec<GenericObject<measurements::MMeTe1>>),
    /// Objects of type M_ME_TF_1.
    MMeTf1(Vec<GenericObject<measurements::MMeTf1>>),
    /// Objects of type M_IT_TB_1.
    MItTb1(Vec<GenericObject<measurements::MItTb1>>),
    /// Objects of type M_EP_TD_1.
    MEpTd1(Vec<GenericObject<measurements::MEpTd1>>),
    /// Objects of type M_EP_TE_1.
    MEpTe1(Vec<GenericObject<measurements::MEpTe1>>),
    /// Objects of type M_EP_TF_1.
    MEpTf1(Vec<GenericObject<measurements::MEpTf1>>),
    /// Objects of type M_EI_NA_1.
    MEiNa1(Vec<GenericObject<measurements::MEiNa1>>),
    /// Objects of type C_SC_NA_1.
    CScNa1(Vec<GenericObject<commands::CScNa1>>),
    /// Objects of type C_DC_NA_1.
    CdcNa1(Vec<GenericObject<commands::CdcNa1>>),
    /// Objects of type C_RC_NA_1.
    CrcNa1(Vec<GenericObject<commands::CrcNa1>>),
    /// Objects of type C_SE_NA_1.
    CSeNa1(Vec<GenericObject<commands::CSeNa1>>),
    /// Objects of type C_SE_NB_1.
    CSeNb1(Vec<GenericObject<commands::CSeNb1>>),
    /// Objects of type C_SE_NC_1.
    CSeNc1(Vec<GenericObject<commands::CSeNc1>>),
    /// Objects of type C_BO_NA_1.
    CBoNa1(Vec<GenericObject<commands::CBoNa1>>),
    /// Objects of type C_SC_TA_1.
    CScTa1(Vec<GenericObject<commands::CScTa1>>),
    /// Objects of type C_DC_TA_1.
    CdcTa1(Vec<GenericObject<commands::CdcTa1>>),
    /// Objects of type C_RC_TA_1.
    CrcTa1(Vec<GenericObject<commands::CrcTa1>>),
    /// Objects of type C_SE_TA_1.
    CSeTa1(Vec<GenericObject<commands::CSeTa1>>),
    /// Objects of type C_SE_TB_1.
    CSeTb1(Vec<GenericObject<commands::CSeTb1>>),
    /// Objects of type C_SE_TC_1.
    CSeTc1(Vec<GenericObject<commands::CSeTc1>>),
    /// Objects of type C_BO_TA_1.
    CBoTa1(Vec<GenericObject<commands::CBoTa1>>),
    /// Objects of type C_IC_NA_1.
    CIcNa1(Vec<GenericObject<commands::CIcNa1>>),
    /// Objects of type C_CI_NA_1.
    CCiNa1(Vec<GenericObject<commands::CCiNa1>>),
    /// Objects of type C_RD_NA_1.
    CRdNa1(Vec<GenericObject<commands::CRdNa1>>),
    /// Objects of type C_CS_NA_1.
    CCsNa1(Vec<GenericObject<commands::CCsNa1>>),
    /// Objects of type C_TS_NA_1.
    CTsNa1(Vec<GenericObject<commands::CTsNa1>>),
    /// Objects of type C_RP_NA_1.
    CRpNa1(Vec<GenericObject<commands::CRpNa1>>),
    /// Objects of type C_CD_NA_1.
    CCdNa1(Vec<GenericObject<commands::CCdNa1>>),
    /// Objects of type C_TS_TA_1.
    CTsTa1(Vec<GenericObject<commands::CTsTa1>>),
    /// Objects of type P_ME_NA_1.
    PMeNa1(Vec<GenericObject<parameters::PMeNa1>>),
    /// Objects of type P_ME_NB_1.
    PMeNb1(Vec<GenericObject<parameters::PMeNb1>>),
    /// Objects of type P_ME_NC_1.
    PMeNc1(Vec<GenericObject<parameters::PMeNc1>>),
    /// Objects of type P_AC_NA_1.
    PAcNa1(Vec<GenericObject<parameters::PAcNa1>>),
}

impl View for InformationObjects {
    type V = ObjectsView;

    open spec fn view(&self) -> ObjectsView {
        match self {
            InformationObjects::MSpNa1(v) => ObjectsView::MSpNa1(v@),
            InformationObjects::MSpTa1(v) => ObjectsView::MSpTa1(v@),
            InformationObjects::MDpNa1(v) => ObjectsView::MDpNa1(v@),
            InformationObjects::MDpTa1(v) => ObjectsView::MDpTa1(v@),
            InformationObjects::MStNa1(v) => ObjectsView::MStNa1(v@),
            InformationObjects::MStTa1(v) => ObjectsView::MStTa1(v@),
            InformationObjects::MBoNa1(v) => ObjectsView::MBoNa1(v@),
            InformationObjects::MMeNa1(v) => ObjectsView::MMeNa1(v@),
            InformationObjects::MMeTa1(v) => ObjectsView::MMeTa1(v@),
            InformationObjects::MMeNb1(v) => ObjectsView::MMeNb1(v@),
            InformationObjects::MMeTb1(v) => ObjectsView::MMeTb1(v@),
            InformationObjects::MMeNc1(v) => ObjectsView::MMeNc1(v@),
            InformationObjects::MMeTc1(v) => ObjectsView::MMeTc1(v@),
            InformationObjects::MItNa1(v) => ObjectsView::MItNa1(v@),
            InformationObjects::MEpTa1(v) => ObjectsView::MEpTa1(v@),
            InformationObjects::MEpTb1(v) => ObjectsView::MEpTb1(v@),
            InformationObjects::MEpTc1(v) => ObjectsView::MEpTc1(v@),
            InformationObjects::MPsNa1(v) => ObjectsView::MPsNa1(v@),
            InformationObjects::MMeNd1(v) => ObjectsView::MMeNd1(v@),
            InformationObjects::MSpTb1(v) => ObjectsView::MSpTb1(v@),
            InformationObjects::MDpTb1(v) => ObjectsView::MDpTb1(v@),
            InformationObjects::MStTb1(v) => ObjectsView::MStTb1(v@),
            InformationObjects::MBoTb1(v) => ObjectsView::MBoTb1(v@),
            InformationObjects::MMeTd1(v) => ObjectsView::MMeTd1(v@),
            InformationObjects::MMeTe1(v) => ObjectsView::MMeTe1(v@),
            InformationObjects::MMeTf1(v) => ObjectsView::MMeTf1(v@),
            InformationObjects::MItTb1(v) => ObjectsView::MItTb1(v@),
            InformationObjects::MEpTd1(v) => ObjectsView::MEpTd1(v@),
            InformationObjects::MEpTe1(v) => ObjectsView::MEpTe1(v@),
            InformationObjects::MEpTf1(v) => ObjectsView::MEpTf1(v@),
            InformationObjects::MEiNa1(v) => ObjectsView::MEiNa1(v@),
            InformationObjects::CScNa1(v) => ObjectsView::CScNa1(v@),
            InformationObjects::CdcNa1(v) => ObjectsView::CdcNa1(v@),
            InformationObjects::CrcNa1(v) => ObjectsView::CrcNa1(v@),
            InformationObjects::CSeNa1(v) => ObjectsView::CSeNa1(v@),
            InformationObjects::CSeNb1(v) => ObjectsView::CSeNb1(v@),
            InformationObjects::CSeNc1(v) => ObjectsView::CSeNc1(v@),
            InformationObjects::CBoNa1(v) => ObjectsView::CBoNa1(v@),
            InformationObjects::CScTa1(v) => ObjectsView::CScTa1(v@),
            InformationObjects::CdcTa1(v) => ObjectsView::CdcTa1(v@),
            InformationObjects::CrcTa1(v) => ObjectsView::CrcTa1(v@),
            InformationObjects::CSeTa1(v) => ObjectsView::CSeTa1(v@),
            InformationObjects::CSeTb1(v) => ObjectsView::CSeTb1(v@),
            InformationObjects::CSeTc1(v) => ObjectsView::CSeTc1(v@),
            InformationObjects::CBoTa1(v) => ObjectsView::CBoTa1(v@),
            InformationObjects::CIcNa1(v) => ObjectsView::CIcNa1(v@),
            InformationObjects::CCiNa1(v) => ObjectsView::CCiNa1(v@),
            InformationObjects::CRdNa1(v) => ObjectsView::CRdNa1(v@),
            InformationObjects::CCsNa1(v) => ObjectsView::CCsNa1(v@),
            InformationObjects::CTsNa1(v) => ObjectsView::CTsNa1(v@),
            InformationObjects::CRpNa1(v) => ObjectsView::CRpNa1(v@),
            InformationObjects::CCdNa1(v) => ObjectsView::CCdNa1(v@),
            InformationObjects::CTsTa1(v) => ObjectsView::CTsTa1(v@),
            InformationObjects::PMeNa1(v) => ObjectsView::PMeNa1(v@),
            InformationObjects::PMeNb1(v) => ObjectsView::PMeNb1(v@),
            InformationObjects::PMeNc1(v) => ObjectsView::PMeNc1(v@),
            InformationObjects::PAcNa1(v) => ObjectsView::PAcNa1(v@),
        }
    }
}

impl InformationObjects {
    /// Decodes the object list of one ASDU body for the given type and
    /// addressing mode; `num_objs` matters only for types without payload.
    /// Like the mathematical decode it is verified against, the dispatch
    /// over the catalog runs through one helper per slice.
    pub fn from_bytes(type_id: TypeId, sequence: bool, num_objs: u8, bytes: &[u8]) -> (r:
        Result<InformationObjects, ParseError>)
        ensures
            match r {
                Ok(io) => ObjectsView::dec(type_id, sequence, num_objs, bytes@) == Ok::<
                    ObjectsView,
                    ParseError,
                >(io@),
                Err(e) => ObjectsView::dec(type_id, sequence, num_objs, bytes@) == Err::<
                    ObjectsView,
                    ParseError,
                >(e),
            },
    {
        Self::from_bytes_slice0(type_id, sequence, num_objs, bytes)
    }

    /// Slice 0 of the decode dispatch.
    #[verifier::rlimit(100)]
    fn from_bytes_slice0(type_id: TypeId, sequence: bool, num_objs: u8, bytes: &[u8]) -> (r:
        Result<InformationObjects, ParseError>)
        ensures
            match r {
                Ok(io) => ObjectsView::dec(type_id, sequence, num_objs, bytes@) == Ok::<
                    ObjectsView,
                    ParseError,
                >(io@),
                Err(e) => ObjectsView::dec(type_id, sequence, num_objs, bytes@) == Err::<
                    ObjectsView,
                    ParseError,
                >(e),
            },
    {
        proof {
            reveal(ObjectsView::dec_slice0);
        }
        match type_id {
            TypeId::M_SP_NA_1 => match build_objects::<measurements::MSpNa1>(sequence, num_objs, bytes) {
                Ok(v) => Ok(InformationObjects::MSpNa1(v)),
                Err(e) => Err(e),
            },
            TypeId::M_SP_TA_1 => match build_objects::<measurements::MSpTa1>(sequence, num_objs, bytes) {
                Ok(v) => Ok(InformationObjects::MSpTa1(v)),
                Err(e) => Err(e),
            },
            TypeId::M_DP_NA_1 => match build_objects::<measurements::MDpNa1>(sequence, num_objs, bytes) {
                Ok(v) => Ok(InformationObjects::MDpNa1(v)),
                Err(e) => Err(e),
            },
            TypeId::M_DP_TA_1 => match build_objects::<measurements::MDpTa1>(sequence, num_objs, bytes) {
                Ok(v) => Ok(InformationObjects::MDpTa1(v)),
                Err(e) => Err(e),
            },
            TypeId::M_ST_NA_1 => match build_objects::<measurements::MStNa1>(sequence, num_objs, bytes) {
                Ok(v) => Ok(InformationObjects::MStNa1(v)),
                Err(e) => Err(e),
            },
            TypeId::M_ST_TA_1 => match build_objects::<measurements::MStTa1>(sequence, num_objs, bytes) {
                Ok(v) => Ok(InformationObjects::MStTa1(v)),
                Err(e) => Err(e),
            },
            TypeId::M_BO_NA_1 => match build_objects::<measurements::MBoNa1>(sequence, num_objs, bytes) {
                Ok(v) => Ok(InformationObjects::MBoNa1(v)),
                Err(e) => Err(e),
            },
            TypeId::M_ME_NA_1 => match build_objects::<measurements::MMeNa1>(sequence, num_objs, bytes) {
                Ok(v) => Ok(InformationObjects::MMeNa1(v)),
                Err(e) => Err(e),
            },
            _ => Self::from_bytes_slice1(type_id, sequence, num_objs, bytes),
        }
    }

    /// Slice 1 of the decode dispatch.
    #[verifier::rlimit(100)]
    fn from_bytes_slice1(type_id: TypeId, sequence: bool, num_objs: u8, bytes: &[u8]) -> (r:
        Result<InformationObjects, ParseError>)
        requires
            !ObjectsView::in_dec_slice0(type_id),
        ensures
            match r {
                Ok(io) => ObjectsView::dec(type_id, sequence, num_objs, bytes@) == Ok::<
                    ObjectsView,
                    ParseError,
                >(io@),
                Err(e) => ObjectsView::dec(type_id, sequence, num_objs, bytes@) == Err::<
                    ObjectsView,
                    ParseError,
                >(e),
            },
    {
        proof {
            reveal(ObjectsView::dec_slice1);
        }
        match type_id {
            TypeId::M_ME_TA_1 => match build_objects::<measurements::MMeTa1>(sequence, num_objs, bytes) {
                Ok(v) => Ok(InformationObjects::MMeTa1(v)),
                Err(e) => Err(e),
            },
            TypeId::M_ME_NB_1 => match build_objects::<measurements::MMeNb1>(sequence, num_objs, bytes) {
                Ok(v) => Ok(InformationObjects::MMeNb1(v)),
                Err(e) => Err(e),
            },
            TypeId::M_ME_TB_1 => match build_objects::<measurements::MMeTb1>(sequence, num_objs, bytes) {
                Ok(v) => Ok(InformationObjects::MMeTb1(v)),
                Err(e) => Err(e),
            },
            TypeId::M_ME_NC_1 => match build_objects::<measurements::MMeNc1>(sequence, num_objs, bytes) {
                Ok(v) => Ok(InformationObjects::MMeNc1(v)),
                Err(e) => Err(e),
            },
            TypeId::M_ME_TC_1 => match build_objects::<measurements::MMeTc1>(sequence, num_objs, bytes) {
                Ok(v) => Ok(InformationObjects::MMeTc1(v)),
                Err(e) => Err(e),
            },
            TypeId::M_IT_NA_1 => match build_objects::<measurements::MItNa1>(sequence, num_objs, bytes) {
                Ok(v) => Ok(InformationObjects::MItNa1(v)),
                Err(e) => Err(e),
            },
            TypeId::M_EP_TA_1 => match build_objects::<measurements::MEpTa1>(sequence, num_objs, bytes) {
                Ok(v) => Ok(InformationObjects::MEpTa1(v)),
                Err(e) => Err(e),
            },
            TypeId::M_EP_TB_1 => match build_objects::<measurements::MEpTb1>(sequence, num_objs, bytes) {
                Ok(v) => Ok(InformationObjects::MEpTb1(v)),
                Err(e) => Err(e),
            },
            _ => Self::from_bytes_slice2(type_id, sequence, num_objs, bytes),
        }
    }

    /// Slice 2 of the decode dispatch.
    #[verifier::rlimit(100)]
    fn from_bytes_slice2(type_id: TypeId, sequence: bool, num_objs: u8, bytes: &[u8]) -> (r:
        Result<InformationObjects, ParseError>)
        requires
            !ObjectsView::in_dec_slice0(type_id),
            !ObjectsView::in_dec_slice1(type_id),
        ensures
            match r {
                Ok(io) => ObjectsView::dec(type_id, sequence, num_objs, bytes@) == Ok::<
                    ObjectsView,
                    ParseError,
                >(io@),
                Err(e) => ObjectsView::dec(type_id, sequence, num_objs, bytes@) == Err::<
                    ObjectsView,
                    ParseError,
                >(e),
            },
    {
        proof {
            reveal(ObjectsView::dec_slice2);
        }
        match type_id {
            TypeId::M_EP_TC_1 => match build_objects::<measurements::MEpTc1>(sequence, num_objs, bytes) {
                Ok(v) => Ok(InformationObjects::MEpTc1(v)),
                Err(e) => Err(e),
            },
            TypeId::M_PS_NA_1 => match build_objects::<measurements::MPsNa1>(sequence, num_objs, bytes) {
                Ok(v) => Ok(InformationObjects::MPsNa1(v)),
                Err(e) => Err(e),
            },
            TypeId::M_ME_ND_1 => match build_objects::<measurements::MMeNd1>(sequence, num_objs, bytes) {
                Ok(v) => Ok(InformationObjects::MMeNd1(v)),
                Err(e) => Err(e),
            },
            TypeId::M_SP_TB_1 => match build_objects::<measurements::MSpTb1>(sequence, num_objs, bytes) {
                Ok(v) => Ok(InformationObjects::MSpTb1(v)),
                Err(e) => Err(e),
            },
            TypeId::M_DP_TB_1 => match build_objects::<measurements::MDpTb1>(sequence, num_objs, bytes) {
                Ok(v) => Ok(InformationObjects::MDpTb1(v)),
                Err(e) => Err(e),
            },
            TypeId::M_ST_TB_1 => match build_objects::<measurements::MStTb1>(sequence, num_objs, bytes) {
                Ok(v) => Ok(InformationObjects::MStTb1(v)),
                Err(e) => Err(e),
            },
            TypeId::M_BO_TB_1 => match build_objects::<measurements::MBoTb1>(sequence, num_objs, bytes) {
                Ok(v) => Ok(InformationObjects::MBoTb1(v)),
                Err(e) => Err(e),
            },
            TypeId::M_ME_TD_1 => match build_objects::<measurements::MMeTd1>(sequence, num_objs, bytes) {
                Ok(v) => Ok(InformationObjects::MMeTd1(v)),
                Err(e) => Err(e),
            },
            _ => Self::from_bytes_slice3(type_id, sequence, num_objs, bytes),
        }
    }

    /// Slice 3 of the decode dispatch.
    #[verifier::rlimit(100)]
    fn from_bytes_slice3(type_id: TypeId, sequence: bool, num_objs: u8, bytes: &[u8]) -> (r:
        Result<InformationObjects, ParseError>)
        requires
            !ObjectsView::in_dec_slice0(type_id),
            !ObjectsView::in_dec_slice1(type_id),
            !ObjectsView::in_dec_slice2(type_id),
        ensures
            match r {
                Ok(io) => ObjectsView::dec(type_id, sequence, num_objs, bytes@) == Ok::<
                    ObjectsView,
                    ParseError,
                >(io@),
                Err(e) => ObjectsView::dec(type_id, sequence, num_objs, bytes@) == Err::<
                    ObjectsView,
                    ParseError,
                >(e),
            },
    {
        proof {
            reveal(ObjectsView::dec_slice3);
        }
        match type_id {
            TypeId::M_ME_TE_1 => match build_objects::<measurements::MMeTe1>(sequence, num_objs, bytes) {
                Ok(v) => Ok(InformationObjects::MMeTe1(v)),
                Err(e) => Err(e),
            },
            TypeId::M_ME_TF_1 => match build_objects::<measurements::MMeTf1>(sequence, num_objs, bytes) {
                Ok(v) => Ok(InformationObjects::MMeTf1(v)),
                Err(e) => Err(e),
            },
            TypeId::M_IT_TB_1 => match build_objects::<measurements::MItTb1>(sequence, num_objs, bytes) {
                Ok(v) => Ok(InformationObjects::MItTb1(v)),
                Err(e) => Err(e),
            },
            TypeId::M_EP_TD_1 => match build_objects::<measurements::MEpTd1>(sequence, num_objs, bytes) {
                Ok(v) => Ok(InformationObjects::MEpTd1(v)),
                Err(e) => Err(e),
            },
            TypeId::M_EP_TE_1 => match build_objects::<measurements::MEpTe1>(sequence, num_objs, bytes) {
                Ok(v) => Ok(InformationObjects::MEpTe1(v)),
                Err(e) => Err(e),
            },
            TypeId::M_EP_TF_1 => match build_objects::<measurements::MEpTf1>(sequence, num_objs, bytes) {
                Ok(v) => Ok(InformationObjects::MEpTf1(v)),
                Err(e) => Err(e),
            },
            TypeId::M_EI_NA_1 => match build_objects::<measurements::MEiNa1>(sequence, num_objs, bytes) {
                Ok(v) => Ok(InformationObjects::MEiNa1(v)),
                Err(e) => Err(e),
            },
            TypeId::C_SC_NA_1 => match build_objects::<commands::CScNa1>(sequence, num_objs, bytes) {
                Ok(v) => Ok(InformationObjects::CScNa1(v)),
                Err(e) => Err(e),
            },
            _ => Self::from_bytes_slice4(type_id, sequence, num_objs, bytes),
        }
    }

    /// Slice 4 of the decode dispatch.
    #[verifier::rlimit(100)]
    fn from_bytes_slice4(type_id: TypeId, sequence: bool, num_objs: u8, bytes: &[u8]) -> (r:
        Result<InformationObjects, ParseError>)
        requires
            !ObjectsView::in_dec_slice0(type_id),
            !ObjectsView::in_dec_slice1(type_id),
            !ObjectsView::in_dec_slice2(type_id),
            !ObjectsView::in_dec_slice3(type_id),
        ensures
            match r {
                Ok(io) => ObjectsView::dec(type_id, sequence, num_objs, bytes@) == Ok::<
                    ObjectsView,
                    ParseError,
                >(io@),
                Err(e) => ObjectsView::dec(type_id, sequence, num_objs, bytes@) == Err::<
                    ObjectsView,
                    ParseError,
                >(e),
            },
    {
        proof {
            reveal(ObjectsView::dec_slice4);
        }
        match type_id {
            TypeId::C_DC_NA_1 => match build_objects::<commands::CdcNa1>(sequence, num_objs, bytes) {
                Ok(v) => Ok(InformationObjects::CdcNa1(v)),
                Err(e) => Err(e),
            },
            TypeId::C_RC_NA_1 => match build_objects::<commands::CrcNa1>(sequence, num_objs, bytes) {
                Ok(v) => Ok(InformationObjects::CrcNa1(v)),
                Err(e) => Err(e),
            },
            TypeId::C_SE_NA_1 => match build_objects::<commands::CSeNa1>(sequence, num_objs, bytes) {
                Ok(v) => Ok(InformationObjects::CSeNa1(v)),
                Err(e) => Err(e),
            },
            TypeId::C_SE_NB_1 => match build_objects::<commands::CSeNb1>(sequence, num_objs, bytes) {
                Ok(v) => Ok(InformationObjects::CSeNb1(v)),
                Err(e) => Err(e),
            },
            TypeId::C_SE_NC_1 => match build_objects::<commands::CSeNc1>(sequence, num_objs, bytes) {
                Ok(v) => Ok(InformationObjects::CSeNc1(v)),
                Err(e) => Err(e),
            },
            TypeId::C_BO_NA_1 => match build_objects::<commands::CBoNa1>(sequence, num_objs, bytes) {
                Ok(v) => Ok(InformationObjects::CBoNa1(v)),
                Err(e) => Err(e),
            },
            TypeId::C_SC_TA_1 => match build_objects::<commands::CScTa1>(sequence, num_objs, bytes) {
                Ok(v) => Ok(InformationObjects::CScTa1(v)),
                Err(e) => Err(e),
            },
            TypeId::C_DC_TA_1 => match build_objects::<commands::CdcTa1>(sequence, num_objs, bytes) {
                Ok(v) => Ok(InformationObjects::CdcTa1(v)),
                Err(e) => Err(e),
            },
            _ => Self::from_bytes_slice5(type_id, sequence, num_objs, bytes),
        }
    }

    /// Slice 5 of the decode dispatch.
    #[verifier::rlimit(100)]
    fn from_bytes_slice5(type_id: TypeId, sequence: bool, num_objs: u8, bytes: &[u8]) -> (r:
        Result<InformationObjects, ParseError>)
        requires
            !ObjectsView::in_dec_slice0(type_id),
            !ObjectsView::in_dec_slice1(type_id),
            !ObjectsView::in_dec_slice2(type_id),
            !ObjectsView::in_dec_slice3(type_id),
            !ObjectsView::in_dec_slice4(type_id),
        ensures
            match r {
                Ok(io) => ObjectsView::dec(type_id, sequence, num_objs, bytes@) == Ok::<
                    ObjectsView,
                    ParseError,
                >(io@),
                Err(e) => ObjectsView::dec(type_id, sequence, num_objs, bytes@) == Err::<
                    ObjectsView,
                    ParseError,
                >(e),
            },
    {
        proof {
            reveal(ObjectsView::dec_slice5);
        }
        match type_id {
            TypeId::C_RC_TA_1 => match build_objects::<commands::CrcTa1>(sequence, num_objs, bytes) {
                Ok(v) => Ok(InformationObjects::CrcTa1(v)),
                Err(e) => Err(e),
            },
            TypeId::C_SE_TA_1 => match build_objects::<commands::CSeTa1>(sequence, num_objs, bytes) {
                Ok(v) => Ok(InformationObjects::CSeTa1(v)),
                Err(e) => Err(e),
            },
            TypeId::C_SE_TB_1 => match build_objects::<commands::CSeTb1>(sequence, num_objs, bytes) {
                Ok(v) => Ok(InformationObjects::CSeTb1(v)),
                Err(e) => Err(e),
            },
            TypeId::C_SE_TC_1 => match build_objects::<commands::CSeTc1>(sequence, num_objs, bytes) {
                Ok(v) => Ok(InformationObjects::CSeTc1(v)),
                Err(e) => Err(e),
            },
            TypeId::C_BO_TA_1 => match build_objects::<commands::CBoTa1>(sequence, num_objs, bytes) {
                Ok(v) => Ok(InformationObjects::CBoTa1(v)),
                Err(e) => Err(e),
            },
            TypeId::C_IC_NA_1 => match build_objects::<commands::CIcNa1>(sequence, num_objs, bytes) {
                Ok(v) => Ok(InformationObjects::CIcNa1(v)),
                Err(e) => Err(e),
            },
            TypeId::C_CI_NA_1 => match build_objects::<commands::CCiNa1>(sequence, num_objs, bytes) {
                Ok(v) => Ok(InformationObjects::CCiNa1(v)),
                Err(e) => Err(e),
            },
            TypeId::C_RD_NA_1 => match build_objects::<commands::CRdNa1>(sequence, num_objs, bytes) {
                Ok(v) => Ok(InformationObjects::CRdNa1(v)),
                Err(e) => Err(e),
            },
            _ => Self::from_bytes_slice6(type_id, sequence, num_objs, bytes),
        }
    }

    /// Slice 6 of the decode dispatch.
    #[verifier::rlimit(100)]
    fn from_bytes_slice6(type_id: TypeId, sequence: bool, num_objs: u8, bytes: &[u8]) -> (r:
        Result<InformationObjects, ParseError>)
        requires
            !ObjectsView::in_dec_slice0(type_id),
            !ObjectsView::in_dec_slice1(type_id),
            !ObjectsView::in_dec_slice2(type_id),
            !ObjectsView::in_dec_slice3(type_id),
            !ObjectsView::in_dec_slice4(type_id),
            !ObjectsView::in_dec_slice5(type_id),
        ensures
            match r {
                Ok(io) => ObjectsView::dec(type_id, sequence, num_objs, bytes@) == Ok::<
                    ObjectsView,
                    ParseError,
                >(io@),
                Err(e) => ObjectsView::dec(type_id, sequence, num_objs, bytes@) == Err::<
                    ObjectsView,
                    ParseError,
                >(e),
            },
    {
        proof {
            reveal(ObjectsView::dec_slice6);
        }
        match type_id {
            TypeId::C_CS_NA_1 => match build_objects::<commands::CCsNa1>(sequence, num_objs, bytes) {
                Ok(v) => Ok(InformationObjects::CCsNa1(v)),
                Err(e) => Err(e),
            },
            TypeId::C_TS_NA_1 => match build_objects::<commands::CTsNa1>(sequence, num_objs, bytes) {
                Ok(v) => Ok(InformationObjects::CTsNa1(v)),
                Err(e) => Err(e),
            },
            TypeId::C_RP_NA_1 => match build_objects::<commands::CRpNa1>(sequence, num_objs, bytes) {
                Ok(v) => Ok(InformationObjects::CRpNa1(v)),
                Err(e) => Err(e),
            },
            TypeId::C_CD_NA_1 => match build_objects::<commands::CCdNa1>(sequence, num_objs, bytes) {
                Ok(v) => Ok(InformationObjects::CCdNa1(v)),
                Err(e) => Err(e),
            },
            TypeId::C_TS_TA_1 => match build_objects::<commands::CTsTa1>(sequence, num_objs, bytes) {
                Ok(v) => Ok(InformationObjects::CTsTa1(v)),
                Err(e) => Err(e),
            },
            TypeId::P_ME_NA_1 => match build_objects::<parameters::PMeNa1>(sequence, num_objs, bytes) {
                Ok(v) => Ok(InformationObjects::PMeNa1(v)),
                Err(e) => Err(e),
            },
            TypeId::P_ME_NB_1 => match build_objects::<parameters::PMeNb1>(sequence, num_objs, bytes) {
                Ok(v) => Ok(InformationObjects::PMeNb1(v)),
                Err(e) => Err(e),
            },
            TypeId::P_ME_NC_1 => match build_objects::<parameters::PMeNc1>(sequence, num_objs, bytes) {
                Ok(v) => Ok(InformationObjects::PMeNc1(v)),
                Err(e) => Err(e),
            },
            _ => Self::from_bytes_slice7(type_id, sequence, num_objs, bytes),
        }
    }

    /// Slice 7 of the decode dispatch.
    #[verifier::rlimit(100)]
    fn from_bytes_slice7(type_id: TypeId, sequence: bool, num_objs: u8, bytes: &[u8]) -> (r:
        Result<InformationObjects, ParseError>)
        requires
            !ObjectsView::in_dec_slice0(type_id),
            !ObjectsView::in_dec_slice1(type_id),
            !ObjectsView::in_dec_slice2(type_id),
            !ObjectsView::in_dec_slice3(type_id),
            !ObjectsView::in_dec_slice4(type_id),
            !ObjectsView::in_dec_slice5(type_id),
            !ObjectsView::in_dec_slice6(type_id),
        ensures
            match r {
                Ok(io) => ObjectsView::dec(type_id, sequence, num_objs, bytes@) == Ok::<
                    ObjectsView,
                    ParseError,
                >(io@),
                Err(e) => ObjectsView::dec(type_id, sequence, num_objs, bytes@) == Err::<
                    ObjectsView,
                    ParseError,
                >(e),
            },
    {
        proof {
            reveal(ObjectsView::dec_slice7);
        }
        match type_id {
            TypeId::P_AC_NA_1 => match build_objects::<parameters::PAcNa1>(sequence, num_objs, bytes) {
                Ok(v) => Ok(InformationObjects::PAcNa1(v)),
                Err(e) => Err(e),
            },
            TypeId::F_FR_NA_1
            | TypeId::F_SR_NA_1
            | TypeId::F_SC_NA_1
            | TypeId::F_LS_NA_1
            | TypeId::F_FA_NA_1
            | TypeId::F_SG_NA_1
            | TypeId::F_DR_TA_1 => Err(ParseError::NotImplemented),
            _ => Err(ParseError::InvalidType),
        }
    }

    /// How many objects the list holds.
    pub fn len(&self) -> (r: usize)
        ensures
            r == self@.len(),
    {
        match self {
            InformationObjects::MSpNa1(v) => v.len(),
            InformationObjects::MSpTa1(v) => v.len(),
            InformationObjects::MDpNa1(v) => v.len(),
            InformationObjects::MDpTa1(v) => v.len(),
            InformationObjects::MStNa1(v) => v.len(),
            InformationObjects::MStTa1(v) => v.len(),
            InformationObjects::MBoNa1(v) => v.len(),
            InformationObjects::MMeNa1(v) => v.len(),
            InformationObjects::MMeTa1(v) => v.len(),
            InformationObjects::MMeNb1(v) => v.len(),
            InformationObjects::MMeTb1(v) => v.len(),
            InformationObjects::MMeNc1(v) => v.len(),
            InformationObjects::MMeTc1(v) => v.len(),
            InformationObjects::MItNa1(v) => v.len(),
            InformationObjects::MEpTa1(v) => v.len(),
            InformationObjects::MEpTb1(v) => v.len(),
            InformationObjects::MEpTc1(v) => v.len(),
            InformationObjects::MPsNa1(v) => v.len(),
            InformationObjects::MMeNd1(v) => v.len(),
            InformationObjects::MSpTb1(v) => v.len(),
            InformationObjects::MDpTb1(v) => v.len(),
            InformationObjects::MStTb1(v) => v.len(),
            InformationObjects::MBoTb1(v) => v.len(),
            InformationObjects::MMeTd1(v) => v.len(),
            InformationObjects::MMeTe1(v) => v.len(),
            InformationObjects::MMeTf1(v) => v.len(),
            InformationObjects::MItTb1(v) => v.len(),
            InformationObjects::MEpTd1(v) => v.len(),
            InformationObjects::MEpTe1(v) => v.len(),
            InformationObjects::MEpTf1(v) => v.len(),
            InformationObjects::MEiNa1(v) => v.len(),
            InformationObjects::CScNa1(v) => v.len(),
            InformationObjects::CdcNa1(v) => v.len(),
            InformationObjects::CrcNa1(v) => v.len(),
            InformationObjects::CSeNa1(v) => v.len(),
            InformationObjects::CSeNb1(v) => v.len(),
            InformationObjects::CSeNc1(v) => v.len(),
            InformationObjects::CBoNa1(v) => v.len(),
            InformationObjects::CScTa1(v) => v.len(),
            InformationObjects::CdcTa1(v) => v.len(),
            InformationObjects::CrcTa1(v) => v.len(),
            InformationObjects::CSeTa1(v) => v.len(),
            InformationObjects::CSeTb1(v) => v.len(),
            InformationObjects::CSeTc1(v) => v.len(),
            InformationObjects::CBoTa1(v) => v.len(),
            InformationObjects::CIcNa1(v) => v.len(),
            InformationObjects::CCiNa1(v) => v.len(),
            InformationObjects::CRdNa1(v) => v.len(),
            InformationObjects::CCsNa1(v) => v.len(),
            InformationObjects::CTsNa1(v) => v.len(),
            InformationObjects::CRpNa1(v) => v.len(),
            InformationObjects::CCdNa1(v) => v.len(),
            InformationObjects::CTsTa1(v) => v.len(),
            InformationObjects::PMeNa1(v) => v.len(),
            InformationObjects::PMeNb1(v) => v.len(),
            InformationObjects::PMeNc1(v) => v.len(),
            InformationObjects::PAcNa1(v) => v.len(),
        }
    }

    /// Whether the list holds no object at all.
    pub fn is_empty(&self) -> (r: bool)
        ensures
            r == (self@.len() == 0),
    {
        match self {
            InformationObjects::MSpNa1(v) => v.len() == 0,
            InformationObjects::MSpTa1(v) => v.len() == 0,
            InformationObjects::MDpNa1(v) => v.len() == 0,
            InformationObjects::MDpTa1(v) => v.len() == 0,
            InformationObjects::MStNa1(v) => v.len() == 0,
            InformationObjects::MStTa1(v) => v.len() == 0,
            InformationObjects::MBoNa1(v) => v.len() == 0,
            InformationObjects::MMeNa1(v) => v.len() == 0,
            InformationObjects::MMeTa1(v) => v.len() == 0,
            InformationObjects::MMeNb1(v) => v.len() == 0,
            InformationObjects::MMeTb1(v) => v.len() == 0,
            InformationObjects::MMeNc1(v) => v.len() == 0,
            InformationObjects::MMeTc1(v) => v.len() == 0,
            InformationObjects::MItNa1(v) => v.len() == 0,
            InformationObjects::MEpTa1(v) => v.len() == 0,
            InformationObjects::MEpTb1(v) => v.len() == 0,
            InformationObjects::MEpTc1(v) => v.len() == 0,
            InformationObjects::MPsNa1(v) => v.len() == 0,
            InformationObjects::MMeNd1(v) => v.len() == 0,
            InformationObjects::MSpTb1(v) => v.len() == 0,
            InformationObjects::MDpTb1(v) => v.len() == 0,
            InformationObjects::MStTb1(v) => v.len() == 0,
            InformationObjects::MBoTb1(v) => v.len() == 0,
            InformationObjects::MMeTd1(v) => v.len() == 0,
            InformationObjects::MMeTe1(v) => v.len() == 0,
            InformationObjects::MMeTf1(v) => v.len() == 0,
            InformationObjects::MItTb1(v) => v.len() == 0,
            InformationObjects::MEpTd1(v) => v.len() == 0,
            InformationObjects::MEpTe1(v) => v.len() == 0,
            InformationObjects::MEpTf1(v) => v.len() == 0,
            InformationObjects::MEiNa1(v) => v.len() == 0,
            InformationObjects::CScNa1(v) => v.len() == 0,
            InformationObjects::CdcNa1(v) => v.len() == 0,
            InformationObjects::CrcNa1(v) => v.len() == 0,
            InformationObjects::CSeNa1(v) => v.len() == 0,
            InformationObjects::CSeNb1(v) => v.len() == 0,
            InformationObjects::CSeNc1(v) => v.len() == 0,
            InformationObjects::CBoNa1(v) => v.len() == 0,
            InformationObjects::CScTa1(v) => v.len() == 0,
            InformationObjects::CdcTa1(v) => v.len() == 0,
            InformationObjects::CrcTa1(v) => v.len() == 0,
            InformationObjects::CSeTa1(v) => v.len() == 0,
            InformationObjects::CSeTb1(v) => v.len() == 0,
            InformationObjects::CSeTc1(v) => v.len() == 0,
            InformationObjects::CBoTa1(v) => v.len() == 0,
            InformationObjects::CIcNa1(v) => v.len() == 0,
            InformationObjects::CCiNa1(v) => v.len() == 0,
            InformationObjects::CRdNa1(v) => v.len() == 0,
            InformationObjects::CCsNa1(v) => v.len() == 0,
            InformationObjects::CTsNa1(v) => v.len() == 0,
            InformationObjects::CRpNa1(v) => v.len() == 0,
            InformationObjects::CCdNa1(v) => v.len() == 0,
            InformationObjects::CTsTa1(v) => v.len() == 0,
            InformationObjects::PMeNa1(v) => v.len() == 0,
            InformationObjects::PMeNb1(v) => v.len() == 0,
            InformationObjects::PMeNc1(v) => v.len() == 0,
            InformationObjects::PAcNa1(v) => v.len() == 0,
        }
    }

    /// Appends the wire form of the list in the given addressing mode;
    /// sequence mode needs a first object to take the address from.
    #[verifier::rlimit(100)]
    pub fn to_bytes(&self, sequence: bool, buffer: &mut Vec<u8>) -> (r: Result<(), ParseError>)
        requires
            sequence ==> self@.len() > 0,
        ensures
            r is Ok,
            final(buffer)@ == old(buffer)@ + self@.enc(sequence),
    {
        match self {
            InformationObjects::MSpNa1(v) => if sequence {
                serialize_seq(v, buffer);
            } else {
                serialize_multi(v, buffer);
            },
            InformationObjects::MSpTa1(v) => if sequence {
                serialize_seq(v, buffer);
            } else {
                serialize_multi(v, buffer);
            },
            InformationObjects::MDpNa1(v) => if sequence {
                serialize_seq(v, buffer);
            } else {
                serialize_multi(v, buffer);
            },
            InformationObjects::MDpTa1(v) => if sequence {
                serialize_seq(v, buffer);
            } else {
                serialize_multi(v, buffer);
            },
            InformationObjects::MStNa1(v) => if sequence {
                serialize_seq(v, buffer);
            } else {
                serialize_multi(v, buffer);
            },
            InformationObjects::MStTa1(v) => if sequence {
                serialize_seq(v, buffer);
            } else {
                serialize_multi(v, buffer);
            },
            InformationObjects::MBoNa1(v) => if sequence {
                serialize_seq(v, buffer);
            } else {
                serialize_multi(v, buffer);
            },
            InformationObjects::MMeNa1(v) => if sequence {
                serialize_seq(v, buffer);
            } else {
                serialize_multi(v, buffer);
            },
            InformationObjects::MMeTa1(v) => if sequence {
                serialize_seq(v, buffer);
            } else {
                serialize_multi(v, buffer);
            },
            InformationObjects::MMeNb1(v) => if sequence {
                serialize_seq(v, buffer);
            } else {
                serialize_multi(v, buffer);
            },
            InformationObjects::MMeTb1(v) => if sequence {
                serialize_seq(v, buffer);
            } else {
                serialize_multi(v, buffer);
            },
            InformationObjects::MMeNc1(v) => if sequence {
                serialize_seq(v, buffer);
            } else {
                serialize_multi(v, buffer);
            },
            InformationObjects::MMeTc1(v) => if sequence {
                serialize_seq(v, buffer);
            } else {
                serialize_multi(v, buffer);
            },
            InformationObjects::MItNa1(v) => if sequence {
                serialize_seq(v, buffer);
            } else {
                serialize_multi(v, buffer);
            },
            InformationObjects::MEpTa1(v) => if sequence {
                serialize_seq(v, buffer);
            } else {
                serialize_multi(v, buffer);
            },
            InformationObjects::MEpTb1(v) => if sequence {
                serialize_seq(v, buffer);
            } else {
                serialize_multi(v, buffer);
            },
            InformationObjects::MEpTc1(v) => if sequence {
                serialize_seq(v, buffer);
            } else {
                serialize_multi(v, buffer);
            },
            InformationObjects::MPsNa1(v) => if sequence {
                serialize_seq(v, buffer);
            } else {
                serialize_multi(v, buffer);
            },
            InformationObjects::MMeNd1(v) => if sequence {
                serialize_seq(v, buffer);
            } else {
                serialize_multi(v, buffer);
            },
            InformationObjects::MSpTb1(v) => if sequence {
                serialize_seq(v, buffer);
            } else {
                serialize_multi(v, buffer);
            },
            InformationObjects::MDpTb1(v) => if sequence {
                serialize_seq(v, buffer);
            } else {
                serialize_multi(v, buffer);
            },
            InformationObjects::MStTb1(v) => if sequence {
                serialize_seq(v, buffer);
            } else {
                serialize_multi(v, buffer);
            },
            InformationObjects::MBoTb1(v) => if sequence {
                serialize_seq(v, buffer);
            } else {
                serialize_multi(v, buffer);
            },
            InformationObjects::MMeTd1(v) => if sequence {
                serialize_seq(v, buffer);
            } else {
                serialize_multi(v, buffer);
            },
            InformationObjects::MMeTe1(v) => if sequence {
                serialize_seq(v, buffer);
            } else {
                serialize_multi(v, buffer);
            },
            InformationObjects::MMeTf1(v) => if sequence {
                serialize_seq(v, buffer);
            } else {
                serialize_multi(v, buffer);
            },
            InformationObjects::MItTb1(v) => if sequence {
                serialize_seq(v, buffer);
            } else {
                serialize_multi(v, buffer);
            },
            InformationObjects::MEpTd1(v) => if sequence {
                serialize_seq(v, buffer);
            } else {
                serialize_multi(v, buffer);
            },
            InformationObjects::MEpTe1(v) => if sequence {
                serialize_seq(v, buffer);
            } else {
                serialize_multi(v, buffer);
            },
            InformationObjects::MEpTf1(v) => if sequence {
                serialize_seq(v, buffer);
            } else {
                serialize_multi(v, buffer);
            },
            InformationObjects::MEiNa1(v) => if sequence {
                serialize_seq(v, buffer);
            } else {
                serialize_multi(v, buffer);
            },
            InformationObjects::CScNa1(v) => if sequence {
                serialize_seq(v, buffer);
            } else {
                serialize_multi(v, buffer);
            },
            InformationObjects::CdcNa1(v) => if sequence {
                serialize_seq(v, buffer);
            } else {
                serialize_multi(v, buffer);
            },
            InformationObjects::CrcNa1(v) => if sequence {
                serialize_seq(v, buffer);
            } else {
                serialize_multi(v, buffer);
            },
            InformationObjects::CSeNa1(v) => if sequence {
                serialize_seq(v, buffer);
            } else {
                serialize_multi(v, buffer);
            },
            InformationObjects::CSeNb1(v) => if sequence {
                serialize_seq(v, buffer);
            } else {
                serialize_multi(v, buffer);
            },
            InformationObjects::CSeNc1(v) => if sequence {
                serialize_seq(v, buffer);
            } else {
                serialize_multi(v, buffer);
            },
            InformationObjects::CBoNa1(v) => if sequence {
                serialize_seq(v, buffer);
            } else {
                serialize_multi(v, buffer);
            },
            InformationObjects::CScTa1(v) => if sequence {
                serialize_seq(v, buffer);
            } else {
                serialize_multi(v, buffer);
            },
            InformationObjects::CdcTa1(v) => if sequence {
                serialize_seq(v, buffer);
            } else {
                serialize_multi(v, buffer);
            },
            InformationObjects::CrcTa1(v) => if sequence {
                serialize_seq(v, buffer);
            } else {
                serialize_multi(v, buffer);
            },
            InformationObjects::CSeTa1(v) => if sequence {
                serialize_seq(v, buffer);
            } else {
                serialize_multi(v, buffer);
            },
            InformationObjects::CSeTb1(v) => if sequence {
                serialize_seq(v, buffer);
            } else {
                serialize_multi(v, buffer);
            },
            InformationObjects::CSeTc1(v) => if sequence {
                serialize_seq(v, buffer);
            } else {
                serialize_multi(v, buffer);
            },
            InformationObjects::CBoTa1(v) => if sequence {
                serialize_seq(v, buffer);
            } else {
                serialize_multi(v, buffer);
            },
            InformationObjects::CIcNa1(v) => if sequence {
                serialize_seq(v, buffer);
            } else {
                serialize_multi(v, buffer);
            },
            InformationObjects::CCiNa1(v) => if sequence {
                serialize_seq(v, buffer);
            } else {
                serialize_multi(v, buffer);
            },
            InformationObjects::CRdNa1(v) => if sequence {
                serialize_seq(v, buffer);
            } else {
                serialize_multi(v, buffer);
            },
            InformationObjects::CCsNa1(v) => if sequence {
                serialize_seq(v, buffer);
            } else {
                serialize_multi(v, buffer);
            },
            InformationObjects::CTsNa1(v) => if sequence {
                serialize_seq(v, buffer);
            } else {
                serialize_multi(v, buffer);
            },
            InformationObjects::CRpNa1(v) => if sequence {
                serialize_seq(v, buffer);
            } else {
                serialize_multi(v, buffer);
            },
            InformationObjects::CCdNa1(v) => if sequence {
                serialize_seq(v, buffer);
            } else {
                serialize_multi(v, buffer);
            },
            InformationObjects::CTsTa1(v) => if sequence {
                serialize_seq(v, buffer);
            } else {
                serialize_multi(v, buffer);
            },
            InformationObjects::PMeNa1(v) => if sequence {
                serialize_seq(v, buffer);
            } else {
                serialize_multi(v, buffer);
            },
            InformationObjects::PMeNb1(v) => if sequence {
                serialize_seq(v, buffer);
            } else {
                serialize_multi(v, buffer);
            },
            InformationObjects::PMeNc1(v) => if sequence {
                serialize_seq(v, buffer);
            } else {
                serialize_multi(v, buffer);
            },
            InformationObjects::PAcNa1(v) => if sequence {
                serialize_seq(v, buffer);
            } else {
                serialize_multi(v, buffer);
            },
        }
        Ok(())
    }
}

/// Encoding a well-formed object list is undone by decoding it for its
/// own type; sequence mode needs a non-empty list with consecutive
/// addresses and a type that carries a payload. The dispatch runs through
/// one helper per slice of the catalog.
pub proof fn lemma_objects_enc(ov: ObjectsView, sequence: bool, n: u8)
    requires
        ov.wf(),
        ov.len() <= 16777216,
        sequence ==> 1 <= ov.len() && ov.consecutive() && ov.type_id_spec().size_spec() > 0,
    ensures
        ObjectsView::dec(ov.type_id_spec(), sequence, n, ov.enc(sequence)) == Ok::<
            ObjectsView,
            ParseError,
        >(ov),
{
    if ObjectsView::in_dec_slice0(ov.type_id_spec()) {
        lemma_objects_enc_slice0(ov, sequence, n);
    } else if ObjectsView::in_dec_slice1(ov.type_id_spec()) {
        lemma_objects_enc_slice1(ov, sequence, n);
    } else if ObjectsView::in_dec_slice2(ov.type_id_spec()) {
        lemma_objects_enc_slice2(ov, sequence, n);
    } else if ObjectsView::in_dec_slice3(ov.type_id_spec()) {
        lemma_objects_enc_slice3(ov, sequence, n);
    } else if ObjectsView::in_dec_slice4(ov.type_id_spec()) {
        lemma_objects_enc_slice4(ov, sequence, n);
    } else if ObjectsView::in_dec_slice5(ov.type_id_spec()) {
        lemma_objects_enc_slice5(ov, sequence, n);
    } else if ObjectsView::in_dec_slice6(ov.type_id_spec()) {
        lemma_objects_enc_slice6(ov, sequence, n);
    } else if ObjectsView::in_dec_slice7(ov.type_id_spec()) {
        lemma_objects_enc_slice7(ov, sequence, n);
    }
}

/// Slice 0 of the encode round-trip dispatch.
#[verifier::rlimit(100)]
proof fn lemma_objects_enc_slice0(ov: ObjectsView, sequence: bool, n: u8)
    requires
        ov.wf(),
        ov.len() <= 16777216,
        sequence ==> 1 <= ov.len() && ov.consecutive() && ov.type_id_spec().size_spec() > 0,
        ObjectsView::in_dec_slice0(ov.type_id_spec()),
    ensures
        ObjectsView::dec(ov.type_id_spec(), sequence, n, ov.enc(sequence)) == Ok::<
            ObjectsView,
            ParseError,
        >(ov),
{
    reveal(ObjectsView::dec_slice0);
    match ov {
        ObjectsView::MSpNa1(s) => {
            if sequence {
                lemma_objs_enc_seq_dec::<measurements::MSpNa1>(s, n);
            } else {
                lemma_objs_enc_multi_dec::<measurements::MSpNa1>(s);
            }
        },
        ObjectsView::MSpTa1(s) => {
            if sequence {
                lemma_objs_enc_seq_dec::<measurements::MSpTa1>(s, n);
            } else {
                lemma_objs_enc_multi_dec::<measurements::MSpTa1>(s);
            }
        },
        ObjectsView::MDpNa1(s) => {
            if sequence {
                lemma_objs_enc_seq_dec::<measurements::MDpNa1>(s, n);
            } else {
                lemma_objs_enc_multi_dec::<measurements::MDpNa1>(s);
            }
        },
        ObjectsView::MDpTa1(s) => {
            if sequence {
                lemma_objs_enc_seq_dec::<measurements::MDpTa1>(s, n);
            } else {
                lemma_objs_enc_multi_dec::<measurements::MDpTa1>(s);
            }
        },
        ObjectsView::MStNa1(s) => {
            if sequence {
                lemma_objs_enc_seq_dec::<measurements::MStNa1>(s, n);
            } else {
                lemma_objs_enc_multi_dec::<measurements::MStNa1>(s);
            }
        },
        ObjectsView::MStTa1(s) => {
            if sequence {
                lemma_objs_enc_seq_dec::<measurements::MStTa1>(s, n);
            } else {
                lemma_objs_enc_multi_dec::<measurements::MStTa1>(s);
            }
        },
        ObjectsView::MBoNa1(s) => {
            if sequence {
                lemma_objs_enc_seq_dec::<measurements::MBoNa1>(s, n);
            } else {
                lemma_objs_enc_multi_dec::<measurements::MBoNa1>(s);
            }
        },
        ObjectsView::MMeNa1(s) => {
            if sequence {
                lemma_objs_enc_seq_dec::<measurements::MMeNa1>(s, n);
            } else {
                lemma_objs_enc_multi_dec::<measurements::MMeNa1>(s);
            }
        },
        _ => {
        },
    }
}

/// Slice 1 of the encode round-trip dispatch.
#[verifier::rlimit(100)]
proof fn lemma_objects_enc_slice1(ov: ObjectsView, sequence: bool, n: u8)
    requires
        ov.wf(),
        ov.len() <= 16777216,
        sequence ==> 1 <= ov.len() && ov.consecutive() && ov.type_id_spec().size_spec() > 0,
        ObjectsView::in_dec_slice1(ov.type_id_spec()),
    ensures
        ObjectsView::dec(ov.type_id_spec(), sequence, n, ov.enc(sequence)) == Ok::<
            ObjectsView,
            ParseError,
        >(ov),
{
    reveal(ObjectsView::dec_slice1);
    match ov {
        ObjectsView::MMeTa1(s) => {
            if sequence {
                lemma_objs_enc_seq_dec::<measurements::MMeTa1>(s, n);
            } else {
                lemma_objs_enc_multi_dec::<measurements::MMeTa1>(s);
            }
        },
        ObjectsView::MMeNb1(s) => {
            if sequence {
                lemma_objs_enc_seq_dec::<measurements::MMeNb1>(s, n);
            } else {
                lemma_objs_enc_multi_dec::<measurements::MMeNb1>(s);
            }
        },
        ObjectsView::MMeTb1(s) => {
            if sequence {
                lemma_objs_enc_seq_dec::<measurements::MMeTb1>(s, n);
            } else {
                lemma_objs_enc_multi_dec::<measurements::MMeTb1>(s);
            }
        },
        ObjectsView::MMeNc1(s) => {
            if sequence {
                lemma_objs_enc_seq_dec::<measurements::MMeNc1>(s, n);
            } else {
                lemma_objs_enc_multi_dec::<measurements::MMeNc1>(s);
            }
        },
        ObjectsView::MMeTc1(s) => {
            if sequence {
                lemma_objs_enc_seq_dec::<measurements::MMeTc1>(s, n);
            } else {
                lemma_objs_enc_multi_dec::<measurements::MMeTc1>(s);
            }
        },
        ObjectsView::MItNa1(s) => {
            if sequence {
                lemma_objs_enc_seq_dec::<measurements::MItNa1>(s, n);
            } else {
                lemma_objs_enc_multi_dec::<measurements::MItNa1>(s);
            }
        },
        ObjectsView::MEpTa1(s) => {
            if sequence {
                lemma_objs_enc_seq_dec::<measurements::MEpTa1>(s, n);
            } else {
                lemma_objs_enc_multi_dec::<measurements::MEpTa1>(s);
            }
        },
        ObjectsView::MEpTb1(s) => {
            if sequence {
                lemma_objs_enc_seq_dec::<measurements::MEpTb1>(s, n);
            } else {
                lemma_objs_enc_multi_dec::<measurements::MEpTb1>(s);
            }
        },
        _ => {
        },
    }
}

/// Slice 2 of the encode round-trip dispatch.
#[verifier::rlimit(100)]
proof fn lemma_objects_enc_slice2(ov: ObjectsView, sequence: bool, n: u8)
    requires
        ov.wf(),
        ov.len() <= 16777216,
        sequence ==> 1 <= ov.len() && ov.consecutive() && ov.type_id_spec().size_spec() > 0,
        ObjectsView::in_dec_slice2(ov.type_id_spec()),
    ensures
        ObjectsView::dec(ov.type_id_spec(), sequence, n, ov.enc(sequence)) == Ok::<
            ObjectsView,
            ParseError,
        >(ov),
{
    reveal(ObjectsView::dec_slice2);
    match ov {
        ObjectsView::MEpTc1(s) => {
            if sequence {
                lemma_objs_enc_seq_dec::<measurements::MEpTc1>(s, n);
            } else {
                lemma_objs_enc_multi_dec::<measurements::MEpTc1>(s);
            }
        },
        ObjectsView::MPsNa1(s) => {
            if sequence {
                lemma_objs_enc_seq_dec::<measurements::MPsNa1>(s, n);
            } else {
                lemma_objs_enc_multi_dec::<measurements::MPsNa1>(s);
            }
        },
        ObjectsView::MMeNd1(s) => {
            if sequence {
                lemma_objs_enc_seq_dec::<measurements::MMeNd1>(s, n);
            } else {
                lemma_objs_enc_multi_dec::<measurements::MMeNd1>(s);
            }
        },
        ObjectsView::MSpTb1(s) => {
            if sequence {
                lemma_objs_enc_seq_dec::<measurements::MSpTb1>(s, n);
            } else {
                lemma_objs_enc_multi_dec::<measurements::MSpTb1>(s);
            }
        },
        ObjectsView::MDpTb1(s) => {
            if sequence {
                lemma_objs_enc_seq_dec::<measurements::MDpTb1>(s, n);
            } else {
                lemma_objs_enc_multi_dec::<measurements::MDpTb1>(s);
            }
        },
        ObjectsView::MStTb1(s) => {
            if sequence {
                lemma_objs_enc_seq_dec::<measurements::MStTb1>(s, n);
            } else {
                lemma_objs_enc_multi_dec::<measurements::MStTb1>(s);
            }
        },
        ObjectsView::MBoTb1(s) => {
            if sequence {
                lemma_objs_enc_seq_dec::<measurements::MBoTb1>(s, n);
            } else {
                lemma_objs_enc_multi_dec::<measurements::MBoTb1>(s);
            }
        },
        ObjectsView::MMeTd1(s) => {
            if sequence {
                lemma_objs_enc_seq_dec::<measurements::MMeTd1>(s, n);
            } else {
                lemma_objs_enc_multi_dec::<measurements::MMeTd1>(s);
            }
        },
        _ => {
        },
    }
}

/// Slice 3 of the encode round-trip dispatch.
#[verifier::rlimit(100)]
proof fn lemma_objects_enc_slice3(ov: ObjectsView, sequence: bool, n: u8)
    requires
        ov.wf(),
        ov.len() <= 16777216,
        sequence ==> 1 <= ov.len() && ov.consecutive() && ov.type_id_spec().size_spec() > 0,
        ObjectsView::in_dec_slice3(ov.type_id_spec()),
    ensures
        ObjectsView::dec(ov.type_id_spec(), sequence, n, ov.enc(sequence)) == Ok::<
            ObjectsView,
            ParseError,
        >(ov),
{
    reveal(ObjectsView::dec_slice3);
    match ov {
        ObjectsView::MMeTe1(s) => {
            if sequence {
                lemma_objs_enc_seq_dec::<measurements::MMeTe1>(s, n);
            } else {
                lemma_objs_enc_multi_dec::<measurements::MMeTe1>(s);
            }
        },
        ObjectsView::MMeTf1(s) => {
            if sequence {
                lemma_objs_enc_seq_dec::<measurements::MMeTf1>(s, n);
            } else {
                lemma_objs_enc_multi_dec::<measurements::MMeTf1>(s);
            }
        },
        ObjectsView::MItTb1(s) => {
            if sequence {
                lemma_objs_enc_seq_dec::<measurements::MItTb1>(s, n);
            } else {
                lemma_objs_enc_multi_dec::<measurements::MItTb1>(s);
            }
        },
        ObjectsView::MEpTd1(s) => {
            if sequence {
                lemma_objs_enc_seq_dec::<measurements::MEpTd1>(s, n);
            } else {
                lemma_objs_enc_multi_dec::<measurements::MEpTd1>(s);
            }
        },
        ObjectsView::MEpTe1(s) => {
            if sequence {
                lemma_objs_enc_seq_dec::<measurements::MEpTe1>(s, n);
            } else {
                lemma_objs_enc_multi_dec::<measurements::MEpTe1>(s);
            }
        },
        ObjectsView::MEpTf1(s) => {
            if sequence {
                lemma_objs_enc_seq_dec::<measurements::MEpTf1>(s, n);
            } else {
                lemma_objs_enc_multi_dec::<measurements::MEpTf1>(s);
            }
        },
        ObjectsView::MEiNa1(s) => {
            if sequence {
                lemma_objs_enc_seq_dec::<measurements::MEiNa1>(s, n);
            } else {
                lemma_objs_enc_multi_dec::<measurements::MEiNa1>(s);
            }
        },
        ObjectsView::CScNa1(s) => {
            if sequence {
                lemma_objs_enc_seq_dec::<commands::CScNa1>(s, n);
            } else {
                lemma_objs_enc_multi_dec::<commands::CScNa1>(s);
            }
        },
        _ => {
        },
    }
}

/// Slice 4 of the encode round-trip dispatch.
#[verifier::rlimit(100)]
proof fn lemma_objects_enc_slice4(ov: ObjectsView, sequence: bool, n: u8)
    requires
        ov.wf(),
        ov.len() <= 16777216,
        sequence ==> 1 <= ov.len() && ov.consecutive() && ov.type_id_spec().size_spec() > 0,
        ObjectsView::in_dec_slice4(ov.type_id_spec()),
    ensures
        ObjectsView::dec(ov.type_id_spec(), sequence, n, ov.enc(sequence)) == Ok::<
            ObjectsView,
            ParseError,
        >(ov),
{
    reveal(ObjectsView::dec_slice4);
    match ov {
        ObjectsView::CdcNa1(s) => {
            if sequence {
                lemma_objs_enc_seq_dec::<commands::CdcNa1>(s, n);
            } else {
                lemma_objs_enc_multi_dec::<commands::CdcNa1>(s);
            }
        },
        ObjectsView::CrcNa1(s) => {
            if sequence {
                lemma_objs_enc_seq_dec::<commands::CrcNa1>(s, n);
            } else {
                lemma_objs_enc_multi_dec::<commands::CrcNa1>(s);
            }
        },
        ObjectsView::CSeNa1(s) => {
            if sequence {
                lemma_objs_enc_seq_dec::<commands::CSeNa1>(s, n);
            } else {
                lemma_objs_enc_multi_dec::<commands::CSeNa1>(s);
            }
        },
        ObjectsView::CSeNb1(s) => {
            if sequence {
                lemma_objs_enc_seq_dec::<commands::CSeNb1>(s, n);
            } else {
                lemma_objs_enc_multi_dec::<commands::CSeNb1>(s);
            }
        },
        ObjectsView::CSeNc1(s) => {
            if sequence {
                lemma_objs_enc_seq_dec::<commands::CSeNc1>(s, n);
            } else {
                lemma_objs_enc_multi_dec::<commands::CSeNc1>(s);
            }
        },
        ObjectsView::CBoNa1(s) => {
            if sequence {
                lemma_objs_enc_seq_dec::<commands::CBoNa1>(s, n);
            } else {
                lemma_objs_enc_multi_dec::<commands::CBoNa1>(s);
            }
        },
        ObjectsView::CScTa1(s) => {
            if sequence {
                lemma_objs_enc_seq_dec::<commands::CScTa1>(s, n);
            } else {
                lemma_objs_enc_multi_dec::<commands::CScTa1>(s);
            }
        },
        ObjectsView::CdcTa1(s) => {
            if sequence {
                lemma_objs_enc_seq_dec::<commands::CdcTa1>(s, n);
            } else {
                lemma_objs_enc_multi_dec::<commands::CdcTa1>(s);
            }
        },
        _ => {
        },
    }
}

/// Slice 5 of the encode round-trip dispatch.
#[verifier::rlimit(100)]
proof fn lemma_objects_enc_slice5(ov: ObjectsView, sequence: bool, n: u8)
    requires
        ov.wf(),
        ov.len() <= 16777216,
        sequence ==> 1 <= ov.len() && ov.consecutive() && ov.type_id_spec().size_spec() > 0,
        ObjectsView::in_dec_slice5(ov.type_id_spec()),
    ensures
        ObjectsView::dec(ov.type_id_spec(), sequence, n, ov.enc(sequence)) == Ok::<
            ObjectsView,
            ParseError,
        >(ov),
{
    reveal(ObjectsView::dec_slice5);
    match ov {
        ObjectsView::CrcTa1(s) => {
            if sequence {
                lemma_objs_enc_seq_dec::<commands::CrcTa1>(s, n);
            } else {
                lemma_objs_enc_multi_dec::<commands::CrcTa1>(s);
            }
        },
        ObjectsView::CSeTa1(s) => {
            if sequence {
                lemma_objs_enc_seq_dec::<commands::CSeTa1>(s, n);
            } else {
                lemma_objs_enc_multi_dec::<commands::CSeTa1>(s);
            }
        },
        ObjectsView::CSeTb1(s) => {
            if sequence {
                lemma_objs_enc_seq_dec::<commands::CSeTb1>(s, n);
            } else {
                lemma_objs_enc_multi_dec::<commands::CSeTb1>(s);
            }
        },
        ObjectsView::CSeTc1(s) => {
            if sequence {
                lemma_objs_enc_seq_dec::<commands::CSeTc1>(s, n);
            } else {
                lemma_objs_enc_multi_dec::<commands::CSeTc1>(s);
            }
        },
        ObjectsView::CBoTa1(s) => {
            if sequence {
                lemma_objs_enc_seq_dec::<commands::CBoTa1>(s, n);
            } else {
                lemma_objs_enc_multi_dec::<commands::CBoTa1>(s);
            }
        },
        ObjectsView::CIcNa1(s) => {
            if sequence {
                lemma_objs_enc_seq_dec::<commands::CIcNa1>(s, n);
            } else {
                lemma_objs_enc_multi_dec::<commands::CIcNa1>(s);
            }
        },
        ObjectsView::CCiNa1(s) => {
            if sequence {
                lemma_objs_enc_seq_dec::<commands::CCiNa1>(s, n);
            } else {
                lemma_objs_enc_multi_dec::<commands::CCiNa1>(s);
            }
        },
        ObjectsView::CRdNa1(s) => {
            if sequence {
                lemma_objs_enc_seq_dec::<commands::CRdNa1>(s, n);
            } else {
                lemma_objs_enc_multi_dec::<commands::CRdNa1>(s);
            }
        },
        _ => {
        },
    }
}

/// Slice 6 of the encode round-trip dispatch.
#[verifier::rlimit(100)]
proof fn lemma_objects_enc_slice6(ov: ObjectsView, sequence: bool, n: u8)
    requires
        ov.wf(),
        ov.len() <= 16777216,
        sequence ==> 1 <= ov.len() && ov.consecutive() && ov.type_id_spec().size_spec() > 0,
        ObjectsView::in_dec_slice6(ov.type_id_spec()),
    ensures
        ObjectsView::dec(ov.type_id_spec(), sequence, n, ov.enc(sequence)) == Ok::<
            ObjectsView,
            ParseError,
        >(ov),
{
    reveal(ObjectsView::dec_slice6);
    match ov {
        ObjectsView::CCsNa1(s) => {
            if sequence {
                lemma_objs_enc_seq_dec::<commands::CCsNa1>(s, n);
            } else {
                lemma_objs_enc_multi_dec::<commands::CCsNa1>(s);
            }
        },
        ObjectsView::CTsNa1(s) => {
            if sequence {
                lemma_objs_enc_seq_dec::<commands::CTsNa1>(s, n);
            } else {
                lemma_objs_enc_multi_dec::<commands::CTsNa1>(s);
            }
        },
        ObjectsView::CRpNa1(s) => {
            if sequence {
                lemma_objs_enc_seq_dec::<commands::CRpNa1>(s, n);
            } else {
                lemma_objs_enc_multi_dec::<commands::CRpNa1>(s);
            }
        },
        ObjectsView::CCdNa1(s) => {
            if sequence {
                lemma_objs_enc_seq_dec::<commands::CCdNa1>(s, n);
            } else {
                lemma_objs_enc_multi_dec::<commands::CCdNa1>(s);
            }
        },
        ObjectsView::CTsTa1(s) => {
            if sequence {
                lemma_objs_enc_seq_dec::<commands::CTsTa1>(s, n);
            } else {
                lemma_objs_enc_multi_dec::<commands::CTsTa1>(s);
            }
        },
        ObjectsView::PMeNa1(s) => {
            if sequence {
                lemma_objs_enc_seq_dec::<parameters::PMeNa1>(s, n);
            } else {
                lemma_objs_enc_multi_dec::<parameters::PMeNa1>(s);
            }
        },
        ObjectsView::PMeNb1(s) => {
            if sequence {
                lemma_objs_enc_seq_dec::<parameters::PMeNb1>(s, n);
            } else {
                lemma_objs_enc_multi_dec::<parameters::PMeNb1>(s);
            }
        },
        ObjectsView::PMeNc1(s) => {
            if sequence {
                lemma_objs_enc_seq_dec::<parameters::PMeNc1>(s, n);
            } else {
                lemma_objs_enc_multi_dec::<parameters::PMeNc1>(s);
            }
        },
        _ => {
        },
    }
}

/// Slice 7 of the encode round-trip dispatch.
#[verifier::rlimit(100)]
proof fn lemma_objects_enc_slice7(ov: ObjectsView, sequence: bool, n: u8)
    requires
        ov.wf(),
        ov.len() <= 16777216,
        sequence ==> 1 <= ov.len() && ov.consecutive() && ov.type_id_spec().size_spec() > 0,
        ObjectsView::in_dec_slice7(ov.type_id_spec()),
    ensures
        ObjectsView::dec(ov.type_id_spec(), sequence, n, ov.enc(sequence)) == Ok::<
            ObjectsView,
            ParseError,
        >(ov),
{
    reveal(ObjectsView::dec_slice7);
    match ov {
        ObjectsView::PAcNa1(s) => {
            if sequence {
                lemma_objs_enc_seq_dec::<parameters::PAcNa1>(s, n);
            } else {
                lemma_objs_enc_multi_dec::<parameters::PAcNa1>(s);
            }
        },
        _ => {
        },
    }
}


/// What a successful object-list decode guarantees, for every type: the
/// byte count fits the header exactly, and canonical bytes survive a
/// decode-encode round trip. The dispatch runs through one helper per
/// slice of the catalog.
pub proof fn lemma_objects_dec(type_id: TypeId, sequence: bool, n: u8, b: Seq<u8>)
    requires
        b.len() <= 16777216,
    ensures
        ObjectsView::dec(type_id, sequence, n, b) matches Ok(ov) ==> ov.type_id_spec()
            == type_id && if sequence {
            if type_id.size_spec() == 0 {
                b.len() == 3 && ov.len() == n
            } else {
                b.len() == 3 + type_id.size_spec() * ov.len() && ov.len() >= 1
            }
        } else {
            b.len() == (3 + type_id.size_spec()) * ov.len()
        },
        ObjectsView::dec(type_id, sequence, n, b) matches Ok(ov) ==> ObjectsView::canon(
            type_id,
            sequence,
            b,
        ) && (sequence ==> ov.len() >= 1) ==> ov.enc(sequence) =~= b,
{
    if ObjectsView::in_dec_slice0(type_id) {
        lemma_objects_dec_slice0(type_id, sequence, n, b);
    } else if ObjectsView::in_dec_slice1(type_id) {
        lemma_objects_dec_slice1(type_id, sequence, n, b);
    } else if ObjectsView::in_dec_slice2(type_id) {
        lemma_objects_dec_slice2(type_id, sequence, n, b);
    } else if ObjectsView::in_dec_slice3(type_id) {
        lemma_objects_dec_slice3(type_id, sequence, n, b);
    } else if ObjectsView::in_dec_slice4(type_id) {
        lemma_objects_dec_slice4(type_id, sequence, n, b);
    } else if ObjectsView::in_dec_slice5(type_id) {
        lemma_objects_dec_slice5(type_id, sequence, n, b);
    } else if ObjectsView::in_dec_slice6(type_id) {
        lemma_objects_dec_slice6(type_id, sequence, n, b);
    } else if ObjectsView::in_dec_slice7(type_id) {
        lemma_objects_dec_slice7(type_id, sequence, n, b);
    }
}

/// Slice 0 of the decode-guarantee dispatch.
#[verifier::rlimit(100)]
proof fn lemma_objects_dec_slice0(type_id: TypeId, sequence: bool, n: u8, b: Seq<u8>)
    requires
        b.len() <= 16777216,
        ObjectsView::in_dec_slice0(type_id),
    ensures
        ObjectsView::dec(type_id, sequence, n, b) matches Ok(ov) ==> ov.type_id_spec()
            == type_id && if sequence {
            if type_id.size_spec() == 0 {
                b.len() == 3 && ov.len() == n
            } else {
                b.len() == 3 + type_id.size_spec() * ov.len() && ov.len() >= 1
            }
        } else {
            b.len() == (3 + type_id.size_spec()) * ov.len()
        },
        ObjectsView::dec(type_id, sequence, n, b) matches Ok(ov) ==> ObjectsView::canon(
            type_id,
            sequence,
            b,
        ) && (sequence ==> ov.len() >= 1) ==> ov.enc(sequence) =~= b,
{
    reveal(ObjectsView::dec_slice0);
    match type_id {
        TypeId::M_SP_NA_1 => {
            if sequence {
                lemma_objs_dec_seq::<measurements::MSpNa1>(b, n);
            } else {
                lemma_objs_dec_multi::<measurements::MSpNa1>(b);
            }
        },
        TypeId::M_SP_TA_1 => {
            if sequence {
                lemma_objs_dec_seq::<measurements::MSpTa1>(b, n);
            } else {
                lemma_objs_dec_multi::<measurements::MSpTa1>(b);
            }
        },
        TypeId::M_DP_NA_1 => {
            if sequence {
                lemma_objs_dec_seq::<measurements::MDpNa1>(b, n);
            } else {
                lemma_objs_dec_multi::<measurements::MDpNa1>(b);
            }
        },
        TypeId::M_DP_TA_1 => {
            if sequence {
                lemma_objs_dec_seq::<measurements::MDpTa1>(b, n);
            } else {
                lemma_objs_dec_multi::<measurements::MDpTa1>(b);
            }
        },
        TypeId::M_ST_NA_1 => {
            if sequence {
                lemma_objs_dec_seq::<measurements::MStNa1>(b, n);
            } else {
                lemma_objs_dec_multi::<measurements::MStNa1>(b);
            }
        },
        TypeId::M_ST_TA_1 => {
            if sequence {
                lemma_objs_dec_seq::<measurements::MStTa1>(b, n);
            } else {
                lemma_objs_dec_multi::<measurements::MStTa1>(b);
            }
        },
        TypeId::M_BO_NA_1 => {
            if sequence {
                lemma_objs_dec_seq::<measurements::MBoNa1>(b, n);
            } else {
                lemma_objs_dec_multi::<measurements::MBoNa1>(b);
            }
        },
        TypeId::M_ME_NA_1 => {
            if sequence {
                lemma_objs_dec_seq::<measurements::MMeNa1>(b, n);
            } else {
                lemma_objs_dec_multi::<measurements::MMeNa1>(b);
            }
        },
        _ => {
        },
    }
}

/// Slice 1 of the decode-guarantee dispatch.
#[verifier::rlimit(100)]
proof fn lemma_objects_dec_slice1(type_id: TypeId, sequence: bool, n: u8, b: Seq<u8>)
    requires
        b.len() <= 16777216,
        ObjectsView::in_dec_slice1(type_id),
    ensures
        ObjectsView::dec(type_id, sequence, n, b) matches Ok(ov) ==> ov.type_id_spec()
            == type_id && if sequence {
            if type_id.size_spec() == 0 {
                b.len() == 3 && ov.len() == n
            } else {
                b.len() == 3 + type_id.size_spec() * ov.len() && ov.len() >= 1
            }
        } else {
            b.len() == (3 + type_id.size_spec()) * ov.len()
        },
        ObjectsView::dec(type_id, sequence, n, b) matches Ok(ov) ==> ObjectsView::canon(
            type_id,
            sequence,
            b,
        ) && (sequence ==> ov.len() >= 1) ==> ov.enc(sequence) =~= b,
{
    reveal(ObjectsView::dec_slice1);
    match type_id {
        TypeId::M_ME_TA_1 => {
            if sequence {
                lemma_objs_dec_seq::<measurements::MMeTa1>(b, n);
            } else {
                lemma_objs_dec_multi::<measurements::MMeTa1>(b);
            }
        },
        TypeId::M_ME_NB_1 => {
            if sequence {
                lemma_objs_dec_seq::<measurements::MMeNb1>(b, n);
            } else {
                lemma_objs_dec_multi::<measurements::MMeNb1>(b);
            }
        },
        TypeId::M_ME_TB_1 => {
            if sequence {
                lemma_objs_dec_seq::<measurements::MMeTb1>(b, n);
            } else {
                lemma_objs_dec_multi::<measurements::MMeTb1>(b);
            }
        },
        TypeId::M_ME_NC_1 => {
            if sequence {
                lemma_objs_dec_seq::<measurements::MMeNc1>(b, n);
            } else {
                lemma_objs_dec_multi::<measurements::MMeNc1>(b);
            }
        },
        TypeId::M_ME_TC_1 => {
            if sequence {
                lemma_objs_dec_seq::<measurements::MMeTc1>(b, n);
            } else {
                lemma_objs_dec_multi::<measurements::MMeTc1>(b);
            }
        },
        TypeId::M_IT_NA_1 => {
            if sequence {
                lemma_objs_dec_seq::<measurements::MItNa1>(b, n);
            } else {
                lemma_objs_dec_multi::<measurements::MItNa1>(b);
            }
        },
        TypeId::M_EP_TA_1 => {
            if sequence {
                lemma_objs_dec_seq::<measurements::MEpTa1>(b, n);
            } else {
                lemma_objs_dec_multi::<measurements::MEpTa1>(b);
            }
        },
        TypeId::M_EP_TB_1 => {
            if sequence {
                lemma_objs_dec_seq::<measurements::MEpTb1>(b, n);
            } else {
                lemma_objs_dec_multi::<measurements::MEpTb1>(b);
            }
        },
        _ => {
        },
    }
}

/// Slice 2 of the decode-guarantee dispatch.
#[verifier::rlimit(100)]
proof fn lemma_objects_dec_slice2(type_id: TypeId, sequence: bool, n: u8, b: Seq<u8>)
    requires
        b.len() <= 16777216,
        ObjectsView::in_dec_slice2(type_id),
    ensures
        ObjectsView::dec(type_id, sequence, n, b) matches Ok(ov) ==> ov.type_id_spec()
            == type_id && if sequence {
            if type_id.size_spec() == 0 {
                b.len() == 3 && ov.len() == n
            } else {
                b.len() == 3 + type_id.size_spec() * ov.len() && ov.len() >= 1
            }
        } else {
            b.len() == (3 + type_id.size_spec()) * ov.len()
        },
        ObjectsView::dec(type_id, sequence, n, b) matches Ok(ov) ==> ObjectsView::canon(
            type_id,
            sequence,
            b,
        ) && (sequence ==> ov.len() >= 1) ==> ov.enc(sequence) =~= b,
{
    reveal(ObjectsView::dec_slice2);
    match type_id {
        TypeId::M_EP_TC_1 => {
            if sequence {
                lemma_objs_dec_seq::<measurements::MEpTc1>(b, n);
            } else {
                lemma_objs_dec_multi::<measurements::MEpTc1>(b);
            }
        },
        TypeId::M_PS_NA_1 => {
            if sequence {
                lemma_objs_dec_seq::<measurements::MPsNa1>(b, n);
            } else {
                lemma_objs_dec_multi::<measurements::MPsNa1>(b);
            }
        },
        TypeId::M_ME_ND_1 => {
            if sequence {
                lemma_objs_dec_seq::<measurements::MMeNd1>(b, n);
            } else {
                lemma_objs_dec_multi::<measurements::MMeNd1>(b);
            }
        },
        TypeId::M_SP_TB_1 => {
            if sequence {
                lemma_objs_dec_seq::<measurements::MSpTb1>(b, n);
            } else {
                lemma_objs_dec_multi::<measurements::MSpTb1>(b);
            }
        },
        TypeId::M_DP_TB_1 => {
            if sequence {
                lemma_objs_dec_seq::<measurements::MDpTb1>(b, n);
            } else {
                lemma_objs_dec_multi::<measurements::MDpTb1>(b);
            }
        },
        TypeId::M_ST_TB_1 => {
            if sequence {
                lemma_objs_dec_seq::<measurements::MStTb1>(b, n);
            } else {
                lemma_objs_dec_multi::<measurements::MStTb1>(b);
            }
        },
        TypeId::M_BO_TB_1 => {
            if sequence {
                lemma_objs_dec_seq::<measurements::MBoTb1>(b, n);
            } else {
                lemma_objs_dec_multi::<measurements::MBoTb1>(b);
            }
        },
        TypeId::M_ME_TD_1 => {
            if sequence {
                lemma_objs_dec_seq::<measurements::MMeTd1>(b, n);
            } else {
                lemma_objs_dec_multi::<measurements::MMeTd1>(b);
            }
        },
        _ => {
        },
    }
}

/// Slice 3 of the decode-guarantee dispatch.
#[verifier::rlimit(100)]
proof fn lemma_objects_dec_slice3(type_id: TypeId, sequence: bool, n: u8, b: Seq<u8>)
    requires
        b.len() <= 16777216,
        ObjectsView::in_dec_slice3(type_id),
    ensures
        ObjectsView::dec(type_id, sequence, n, b) matches Ok(ov) ==> ov.type_id_spec()
            == type_id && if sequence {
            if type_id.size_spec() == 0 {
                b.len() == 3 && ov.len() == n
            } else {
                b.len() == 3 + type_id.size_spec() * ov.len() && ov.len() >= 1
            }
        } else {
            b.len() == (3 + type_id.size_spec()) * ov.len()
        },
        ObjectsView::dec(type_id, sequence, n, b) matches Ok(ov) ==> ObjectsView::canon(
            type_id,
            sequence,
            b,
        ) && (sequence ==> ov.len() >= 1) ==> ov.enc(sequence) =~= b,
{
    reveal(ObjectsView::dec_slice3);
    match type_id {
        TypeId::M_ME_TE_1 => {
            if sequence {
                lemma_objs_dec_seq::<measurements::MMeTe1>(b, n);
            } else {
                lemma_objs_dec_multi::<measurements::MMeTe1>(b);
            }
        },
        TypeId::M_ME_TF_1 => {
            if sequence {
                lemma_objs_dec_seq::<measurements::MMeTf1>(b, n);
            } else {
                lemma_objs_dec_multi::<measurements::MMeTf1>(b);
            }
        },
        TypeId::M_IT_TB_1 => {
            if sequence {
                lemma_objs_dec_seq::<measurements::MItTb1>(b, n);
            } else {
                lemma_objs_dec_multi::<measurements::MItTb1>(b);
            }
        },
        TypeId::M_EP_TD_1 => {
            if sequence {
                lemma_objs_dec_seq::<measurements::MEpTd1>(b, n);
            } else {
                lemma_objs_dec_multi::<measurements::MEpTd1>(b);
            }
        },
        TypeId::M_EP_TE_1 => {
            if sequence {
                lemma_objs_dec_seq::<measurements::MEpTe1>(b, n);
            } else {
                lemma_objs_dec_multi::<measurements::MEpTe1>(b);
            }
        },
        TypeId::M_EP_TF_1 => {
            if sequence {
                lemma_objs_dec_seq::<measurements::MEpTf1>(b, n);
            } else {
                lemma_objs_dec_multi::<measurements::MEpTf1>(b);
            }
        },
        TypeId::M_EI_NA_1 => {
            if sequence {
                lemma_objs_dec_seq::<measurements::MEiNa1>(b, n);
            } else {
                lemma_objs_dec_multi::<measurements::MEiNa1>(b);
            }
        },
        TypeId::C_SC_NA_1 => {
            if sequence {
                lemma_objs_dec_seq::<commands::CScNa1>(b, n);
            } else {
                lemma_objs_dec_multi::<commands::CScNa1>(b);
            }
        },
        _ => {
        },
    }
}

/// Slice 4 of the decode-guarantee dispatch.
#[verifier::rlimit(100)]
proof fn lemma_objects_dec_slice4(type_id: TypeId, sequence: bool, n: u8, b: Seq<u8>)
    requires
        b.len() <= 16777216,
        ObjectsView::in_dec_slice4(type_id),
    ensures
        ObjectsView::dec(type_id, sequence, n, b) matches Ok(ov) ==> ov.type_id_spec()
            == type_id && if sequence {
            if type_id.size_spec() == 0 {
                b.len() == 3 && ov.len() == n
            } else {
                b.len() == 3 + type_id.size_spec() * ov.len() && ov.len() >= 1
            }
        } else {
            b.len() == (3 + type_id.size_spec()) * ov.len()
        },
        ObjectsView::dec(type_id, sequence, n, b) matches Ok(ov) ==> ObjectsView::canon(
            type_id,
            sequence,
            b,
        ) && (sequence ==> ov.len() >= 1) ==> ov.enc(sequence) =~= b,
{
    reveal(ObjectsView::dec_slice4);
    match type_id {
        TypeId::C_DC_NA_1 => {
            if sequence {
                lemma_objs_dec_seq::<commands::CdcNa1>(b, n);
            } else {
                lemma_objs_dec_multi::<commands::CdcNa1>(b);
            }
        },
        TypeId::C_RC_NA_1 => {
            if sequence {
                lemma_objs_dec_seq::<commands::CrcNa1>(b, n);
            } else {
                lemma_objs_dec_multi::<commands::CrcNa1>(b);
            }
        },
        TypeId::C_SE_NA_1 => {
            if sequence {
                lemma_objs_dec_seq::<commands::CSeNa1>(b, n);
            } else {
                lemma_objs_dec_multi::<commands::CSeNa1>(b);
            }
        },
        TypeId::C_SE_NB_1 => {
            if sequence {
                lemma_objs_dec_seq::<commands::CSeNb1>(b, n);
            } else {
                lemma_objs_dec_multi::<commands::CSeNb1>(b);
            }
        },
        TypeId::C_SE_NC_1 => {
            if sequence {
                lemma_objs_dec_seq::<commands::CSeNc1>(b, n);
            } else {
                lemma_objs_dec_multi::<commands::CSeNc1>(b);
            }
        },
        TypeId::C_BO_NA_1 => {
            if sequence {
                lemma_objs_dec_seq::<commands::CBoNa1>(b, n);
            } else {
                lemma_objs_dec_multi::<commands::CBoNa1>(b);
            }
        },
        TypeId::C_SC_TA_1 => {
            if sequence {
                lemma_objs_dec_seq::<commands::CScTa1>(b, n);
            } else {
                lemma_objs_dec_multi::<commands::CScTa1>(b);
            }
        },
        TypeId::C_DC_TA_1 => {
            if sequence {
                lemma_objs_dec_seq::<commands::CdcTa1>(b, n);
            } else {
                lemma_objs_dec_multi::<commands::CdcTa1>(b);
            }
        },
        _ => {
        },
    }
}

/// Slice 5 of the decode-guarantee dispatch.
#[verifier::rlimit(100)]
proof fn lemma_objects_dec_slice5(type_id: TypeId, sequence: bool, n: u8, b: Seq<u8>)
    requires
        b.len() <= 16777216,
        ObjectsView::in_dec_slice5(type_id),
    ensures
        ObjectsView::dec(type_id, sequence, n, b) matches Ok(ov) ==> ov.type_id_spec()
            == type_id && if sequence {
            if type_id.size_spec() == 0 {
                b.len() == 3 && ov.len() == n
            } else {
                b.len() == 3 + type_id.size_spec() * ov.len() && ov.len() >= 1
            }
        } else {
            b.len() == (3 + type_id.size_spec()) * ov.len()
        },
        ObjectsView::dec(type_id, sequence, n, b) matches Ok(ov) ==> ObjectsView::canon(
            type_id,
            sequence,
            b,
        ) && (sequence ==> ov.len() >= 1) ==> ov.enc(sequence) =~= b,
{
    reveal(ObjectsView::dec_slice5);
    match type_id {
        TypeId::C_RC_TA_1 => {
            if sequence {
                lemma_objs_dec_seq::<commands::CrcTa1>(b, n);
            } else {
                lemma_objs_dec_multi::<commands::CrcTa1>(b);
            }
        },
        TypeId::C_SE_TA_1 => {
            if sequence {
                lemma_objs_dec_seq::<commands::CSeTa1>(b, n);
            } else {
                lemma_objs_dec_multi::<commands::CSeTa1>(b);
            }
        },
        TypeId::C_SE_TB_1 => {
            if sequence {
                lemma_objs_dec_seq::<commands::CSeTb1>(b, n);
            } else {
                lemma_objs_dec_multi::<commands::CSeTb1>(b);
            }
        },
        TypeId::C_SE_TC_1 => {
            if sequence {
                lemma_objs_dec_seq::<commands::CSeTc1>(b, n);
            } else {
                lemma_objs_dec_multi::<commands::CSeTc1>(b);
            }
        },
        TypeId::C_BO_TA_1 => {
            if sequence {
                lemma_objs_dec_seq::<commands::CBoTa1>(b, n);
            } else {
                lemma_objs_dec_multi::<commands::CBoTa1>(b);
            }
        },
        TypeId::C_IC_NA_1 => {
            if sequence {
                lemma_objs_dec_seq::<commands::CIcNa1>(b, n);
            } else {
                lemma_objs_dec_multi::<commands::CIcNa1>(b);
            }
        },
        TypeId::C_CI_NA_1 => {
            if sequence {
                lemma_objs_dec_seq::<commands::CCiNa1>(b, n);
            } else {
                lemma_objs_dec_multi::<commands::CCiNa1>(b);
            }
        },
        TypeId::C_RD_NA_1 => {
            if sequence {
                lemma_objs_dec_seq::<commands::CRdNa1>(b, n);
            } else {
                lemma_objs_dec_multi::<commands::CRdNa1>(b);
            }
        },
        _ => {
        },
    }
}

/// Slice 6 of the decode-guarantee dispatch.
#[verifier::rlimit(100)]
proof fn lemma_objects_dec_slice6(type_id: TypeId, sequence: bool, n: u8, b: Seq<u8>)
    requires
        b.len() <= 16777216,
        ObjectsView::in_dec_slice6(type_id),
    ensures
        ObjectsView::dec(type_id, sequence, n, b) matches Ok(ov) ==> ov.type_id_spec()
            == type_id && if sequence {
            if type_id.size_spec() == 0 {
                b.len() == 3 && ov.len() == n
            } else {
                b.len() == 3 + type_id.size_spec() * ov.len() && ov.len() >= 1
            }
        } else {
            b.len() == (3 + type_id.size_spec()) * ov.len()
        },
        ObjectsView::dec(type_id, sequence, n, b) matches Ok(ov) ==> ObjectsView::canon(
            type_id,
            sequence,
            b,
        ) && (sequence ==> ov.len() >= 1) ==> ov.enc(sequence) =~= b,
{
    reveal(ObjectsView::dec_slice6);
    match type_id {
        TypeId::C_CS_NA_1 => {
            if sequence {
                lemma_objs_dec_seq::<commands::CCsNa1>(b, n);
            } else {
                lemma_objs_dec_multi::<commands::CCsNa1>(b);
            }
        },
        TypeId::C_TS_NA_1 => {
            if sequence {
                lemma_objs_dec_seq::<commands::CTsNa1>(b, n);
            } else {
                lemma_objs_dec_multi::<commands::CTsNa1>(b);
            }
        },
        TypeId::C_RP_NA_1 => {
            if sequence {
                lemma_objs_dec_seq::<commands::CRpNa1>(b, n);
            } else {
                lemma_objs_dec_multi::<commands::CRpNa1>(b);
            }
        },
        TypeId::C_CD_NA_1 => {
            if sequence {
                lemma_objs_dec_seq::<commands::CCdNa1>(b, n);
            } else {
                lemma_objs_dec_multi::<commands::CCdNa1>(b);
            }
        },
        TypeId::C_TS_TA_1 => {
            if sequence {
                lemma_objs_dec_seq::<commands::CTsTa1>(b, n);
            } else {
                lemma_objs_dec_multi::<commands::CTsTa1>(b);
            }
        },
        TypeId::P_ME_NA_1 => {
            if sequence {
                lemma_objs_dec_seq::<parameters::PMeNa1>(b, n);
            } else {
                lemma_objs_dec_multi::<parameters::PMeNa1>(b);
            }
        },
        TypeId::P_ME_NB_1 => {
            if sequence {
                lemma_objs_dec_seq::<parameters::PMeNb1>(b, n);
            } else {
                lemma_objs_dec_multi::<parameters::PMeNb1>(b);
            }
        },
        TypeId::P_ME_NC_1 => {
            if sequence {
                lemma_objs_dec_seq::<parameters::PMeNc1>(b, n);
            } else {
                lemma_objs_dec_multi::<parameters::PMeNc1>(b);
            }
        },
        _ => {
        },
    }
}

/// Slice 7 of the decode-guarantee dispatch.
#[verifier::rlimit(100)]
proof fn lemma_objects_dec_slice7(type_id: TypeId, sequence: bool, n: u8, b: Seq<u8>)
    requires
        b.len() <= 16777216,
        ObjectsView::in_dec_slice7(type_id),
    ensures
        ObjectsView::dec(type_id, sequence, n, b) matches Ok(ov) ==> ov.type_id_spec()
            == type_id && if sequence {
            if type_id.size_spec() == 0 {
                b.len() == 3 && ov.len() == n
            } else {
                b.len() == 3 + type_id.size_spec() * ov.len() && ov.len() >= 1
            }
        } else {
            b.len() == (3 + type_id.size_spec()) * ov.len()
        },
        ObjectsView::dec(type_id, sequence, n, b) matches Ok(ov) ==> ObjectsView::canon(
            type_id,
            sequence,
            b,
        ) && (sequence ==> ov.len() >= 1) ==> ov.enc(sequence) =~= b,
{
    reveal(ObjectsView::dec_slice7);
    match type_id {
        TypeId::P_AC_NA_1 => {
            if sequence {
                lemma_objs_dec_seq::<parameters::PAcNa1>(b, n);
            } else {
                lemma_objs_dec_multi::<parameters::PAcNa1>(b);
            }
        },
        _ => {
        },
    }
}


} // verus!
