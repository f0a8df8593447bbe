//! The client-facing checks and builders: the guards every user call runs
//! before it reaches the engine, and the command ASDUs the client sends.

use vstd::prelude::*;

use crate::asdu::Asdu;
use crate::cot::Cot;
use crate::link::connection_handler::ConnectionHandlerState;
use crate::link::errors::LinkError;
use crate::types::GenericObject;
use crate::types::commands::{CBoNa1, CBoTa1, CScNa1, CScTa1, CdcNa1, CdcTa1, CrcNa1, CrcTa1, Dco, Qu, Rco, Rcs, Sco};
use crate::types::information_elements::{Dpi, SelectExecute, Spi};
use crate::types::objects::{InformationObjects, ObjectsView};
use crate::types::time::Cp56Time2a;
use crate::types_id::TypeId;

verus! {

/// The callback a user hands the client: called once for every delivered
/// ASDU, in arrival order.
pub trait OnNewObjects {
    /// Receives one decoded ASDU.
    fn on_new_objects(&mut self, asdu: Asdu);
}

/// The guard every data call runs: there must be a connection and it must
/// not be between transports.
pub fn check_connected(state: Option<ConnectionHandlerState>) -> (r: Result<(), LinkError>)
    ensures
        state is None ==> r == Err::<(), LinkError>(LinkError::NotConnected),
        state == Some(ConnectionHandlerState::Reconnecting) ==> r == Err::<(), LinkError>(
            LinkError::Reconnecting,
        ),
        state matches Some(s) ==> s != ConnectionHandlerState::Reconnecting ==> r is Ok,
{
    match state {
        None => Err(LinkError::NotConnected),
        Some(ConnectionHandlerState::Reconnecting) => Err(LinkError::Reconnecting),
        Some(_) => Ok(()),
    }
}

/// The guard for sending data: on top of being connected, the data
/// transfer must have been started.
pub fn check_connection_started(state: Option<ConnectionHandlerState>) -> (r: Result<
    (),
    LinkError,
>)
    ensures
        state is None ==> r == Err::<(), LinkError>(LinkError::NotConnected),
        state == Some(ConnectionHandlerState::Reconnecting) ==> r == Err::<(), LinkError>(
            LinkError::Reconnecting,
        ),
        state == Some(ConnectionHandlerState::Started) ==> r is Ok,
        state matches Some(s) ==> s != ConnectionHandlerState::Started && s
            != ConnectionHandlerState::Reconnecting ==> r == Err::<(), LinkError>(
            LinkError::NotReceiving,
        ),
{
    match check_connected(state) {
        Err(e) => Err(e),
        Ok(_) => if state == Some(ConnectionHandlerState::Started) {
            Ok(())
        } else {
            Err(LinkError::NotReceiving)
        },
    }
}

/// The guard for starting: a second start on a running connection is
/// refused.
pub fn check_can_start(state: Option<ConnectionHandlerState>) -> (r: Result<(), LinkError>)
    ensures
        state is None ==> r == Err::<(), LinkError>(LinkError::NotConnected),
        state == Some(ConnectionHandlerState::Reconnecting) ==> r == Err::<(), LinkError>(
            LinkError::Reconnecting,
        ),
        state == Some(ConnectionHandlerState::WaitingForStart) ==> r is Ok,
        state matches Some(s) ==> s != ConnectionHandlerState::WaitingForStart && s
            != ConnectionHandlerState::Reconnecting ==> r == Err::<(), LinkError>(
            LinkError::AlreadyStarted,
        ),
{
    match check_connected(state) {
        Err(e) => Err(e),
        Ok(_) => if state == Some(ConnectionHandlerState::WaitingForStart) {
            Ok(())
        } else {
            Err(LinkError::AlreadyStarted)
        },
    }
}

/// The select/execute choice a command defaults to when none is given.
pub open spec fn chosen_se(o: Option<SelectExecute>) -> SelectExecute {
    match o {
        Some(se) => se,
        None => SelectExecute::Execute,
    }
}

/// The qualifier a command defaults to when none is given.
pub open spec fn chosen_qu(o: Option<Qu>) -> Qu {
    match o {
        Some(q) => q,
        None => Qu::Unspecified,
    }
}

/// The header every client command shares: requested cause, originator
/// zero, no flags, one object.
pub open spec fn command_header_ok(r: Asdu, common_address: u16) -> bool {
    &&& r.cot == Cot::Request
    &&& r.address_field == common_address
    &&& r.originator_address == 0
    &&& !r.sequence && !r.test && !r.positive
    &&& r.information_objects@.len() == 1
}

/// Builds the single-point command ASDU a client sends: one single-command
/// object at the given address, with the given state, choice and qualifier.
pub fn build_command_sp(
    common_address: u16,
    ioa: u32,
    value: Spi,
    timestamp: Option<Cp56Time2a>,
    select_execute: Option<SelectExecute>,
    qu: Option<Qu>,
) -> (r: Asdu)
    ensures
        command_header_ok(r, common_address),
        r.type_id == (if timestamp is Some {
            TypeId::C_SC_TA_1
        } else {
            TypeId::C_SC_NA_1
        }),
        ({
            let sco = (Sco { se: chosen_se(select_execute), qu: chosen_qu(qu), scs: value });
            r.information_objects@ == (match timestamp {
                Some(time) => ObjectsView::CScTa1(
                    seq![(GenericObject { address: ioa, object: (CScTa1 { sco, time }) })],
                ),
                None => ObjectsView::CScNa1(
                    seq![(GenericObject { address: ioa, object: (CScNa1 { sco }) })],
                ),
            })
        }),
{
    let sco = Sco {
        se: match select_execute {
            Some(se) => se,
            None => SelectExecute::Execute,
        },
        qu: match qu {
            Some(q) => q,
            None => Qu::Unspecified,
        },
        scs: value,
    };
    let (type_id, information_objects) = match timestamp {
        Some(time) => {
            let v = vec![GenericObject { address: ioa, object: CScTa1 { sco, time } }];
            proof {
                assert(v@ =~= seq![(GenericObject { address: ioa, object: (CScTa1 { sco, time }) })]);
            }
            (TypeId::C_SC_TA_1, InformationObjects::CScTa1(v))
        },
        None => {
            let v = vec![GenericObject { address: ioa, object: CScNa1 { sco } }];
            proof {
                assert(v@ =~= seq![(GenericObject { address: ioa, object: (CScNa1 { sco }) })]);
            }
            (TypeId::C_SC_NA_1, InformationObjects::CScNa1(v))
        },
    };
    Asdu {
        type_id,
        cot: Cot::Request,
        originator_address: 0,
        address_field: common_address,
        sequence: false,
        test: false,
        positive: false,
        information_objects,
    }
}

/// Builds the double-point command ASDU: one double-command object at the
/// given address.
pub fn build_command_dp(
    common_address: u16,
    ioa: u32,
    value: Dpi,
    timestamp: Option<Cp56Time2a>,
    select_execute: Option<SelectExecute>,
    qu: Option<Qu>,
) -> (r: Asdu)
    ensures
        command_header_ok(r, common_address),
        r.type_id == (if timestamp is Some {
            TypeId::C_DC_TA_1
        } else {
            TypeId::C_DC_NA_1
        }),
        ({
            let dco = (Dco { se: chosen_se(select_execute), qu: chosen_qu(qu), dcs: value });
            r.information_objects@ == (match timestamp {
                Some(time) => ObjectsView::CdcTa1(
                    seq![(GenericObject { address: ioa, object: (CdcTa1 { dco, time }) })],
                ),
                None => ObjectsView::CdcNa1(
                    seq![(GenericObject { address: ioa, object: (CdcNa1 { dco }) })],
                ),
            })
        }),
{
    let dco = Dco {
        se: match select_execute {
            Some(se) => se,
            None => SelectExecute::Execute,
        },
        qu: match qu {
            Some(q) => q,
            None => Qu::Unspecified,
        },
        dcs: value,
    };
    let (type_id, information_objects) = match timestamp {
        Some(time) => {
            let v = vec![GenericObject { address: ioa, object: CdcTa1 { dco, time } }];
            proof {
                assert(v@ =~= seq![(GenericObject { address: ioa, object: (CdcTa1 { dco, time }) })]);
            }
            (TypeId::C_DC_TA_1, InformationObjects::CdcTa1(v))
        },
        None => {
            let v = vec![GenericObject { address: ioa, object: CdcNa1 { dco } }];
            proof {
                assert(v@ =~= seq![(GenericObject { address: ioa, object: (CdcNa1 { dco }) })]);
            }
            (TypeId::C_DC_NA_1, InformationObjects::CdcNa1(v))
        },
    };
    Asdu {
        type_id,
        cot: Cot::Request,
        originator_address: 0,
        address_field: common_address,
        sequence: false,
        test: false,
        positive: false,
        information_objects,
    }
}

/// Builds the regulating step command ASDU: one step object at the given
/// address.
pub fn build_command_rc(
    common_address: u16,
    ioa: u32,
    value: Rcs,
    timestamp: Option<Cp56Time2a>,
    select_execute: Option<SelectExecute>,
    qu: Option<Qu>,
) -> (r: Asdu)
    ensures
        command_header_ok(r, common_address),
        r.type_id == (if timestamp is Some {
            TypeId::C_RC_TA_1
        } else {
            TypeId::C_RC_NA_1
        }),
        ({
            let rco = (Rco { se: chosen_se(select_execute), qu: chosen_qu(qu), rcs: value });
            r.information_objects@ == (match timestamp {
                Some(time) => ObjectsView::CrcTa1(
                    seq![(GenericObject { address: ioa, object: (CrcTa1 { rco, time }) })],
                ),
                None => ObjectsView::CrcNa1(
                    seq![(GenericObject { address: ioa, object: (CrcNa1 { rco }) })],
                ),
            })
        }),
{
    let rco = Rco {
        se: match select_execute {
            Some(se) => se,
            None => SelectExecute::Execute,
        },
        qu: match qu {
            Some(q) => q,
            None => Qu::Unspecified,
        },
        rcs: value,
    };
    let (type_id, information_objects) = match timestamp {
        Some(time) => {
            let v = vec![GenericObject { address: ioa, object: CrcTa1 { rco, time } }];
            proof {
                assert(v@ =~= seq![(GenericObject { address: ioa, object: (CrcTa1 { rco, time }) })]);
            }
            (TypeId::C_RC_TA_1, InformationObjects::CrcTa1(v))
        },
        None => {
            let v = vec![GenericObject { address: ioa, object: CrcNa1 { rco } }];
            proof {
                assert(v@ =~= seq![(GenericObject { address: ioa, object: (CrcNa1 { rco }) })]);
            }
            (TypeId::C_RC_NA_1, InformationObjects::CrcNa1(v))
        },
    };
    Asdu {
        type_id,
        cot: Cot::Request,
        originator_address: 0,
        address_field: common_address,
        sequence: false,
        test: false,
        positive: false,
        information_objects,
    }
}

/// Builds the bit-string command ASDU: one 32-bit string object at the
/// given address.
pub fn build_command_bs(common_address: u16, ioa: u32, value: u32, timestamp: Option<
    Cp56Time2a,
>) -> (r: Asdu)
    ensures
        command_header_ok(r, common_address),
        r.type_id == (if timestamp is Some {
            TypeId::C_BO_TA_1
        } else {
            TypeId::C_BO_NA_1
        }),
        r.information_objects@ == (match timestamp {
            Some(time) => ObjectsView::CBoTa1(
                seq![(GenericObject { address: ioa, object: (CBoTa1 { bsi: value, time }) })],
            ),
            None => ObjectsView::CBoNa1(
                seq![(GenericObject { address: ioa, object: (CBoNa1 { bsi: value }) })],
            ),
        }),
{
    let (type_id, information_objects) = match timestamp {
        Some(time) => {
            let v = vec![GenericObject { address: ioa, object: CBoTa1 { bsi: value, time } }];
            proof {
                assert(v@ =~= seq![(GenericObject { address: ioa, object: (CBoTa1 { bsi: value, time }) })]);
            }
            (TypeId::C_BO_TA_1, InformationObjects::CBoTa1(v))
        },
        None => {
            let v = vec![GenericObject { address: ioa, object: CBoNa1 { bsi: value } }];
            proof {
                assert(v@ =~= seq![(GenericObject { address: ioa, object: (CBoNa1 { bsi: value }) })]);
            }
            (TypeId::C_BO_NA_1, InformationObjects::CBoNa1(v))
        },
    };
    Asdu {
        type_id,
        cot: Cot::Request,
        originator_address: 0,
        address_field: common_address,
        sequence: false,
        test: false,
        positive: false,
        information_objects,
    }
}

} // verus!
