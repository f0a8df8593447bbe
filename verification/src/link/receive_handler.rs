//! The session engine state: the two fifteen-bit counters, the window of
//! sent-but-unacknowledged frames, and the acknowledgement rules.

use vstd::prelude::*;

use crate::apdu::UFrame;
use crate::link::errors::SessionError;

verus! {

/// The sequence number whose acknowledgement would be a repeat: one below
/// the given number in the fifteen-bit ring.
pub open spec fn prev_seq(n: u16) -> u16 {
    if n == 0 {
        32767
    } else {
        ((n - 1) as u16) % 32768
    }
}

/// Whether an acknowledgement lies between the oldest and newest pending
/// number, allowing for wraparound.
pub open spec fn seq_in_window(rsn: u16, oldest: u16, newest: u16) -> bool {
    if oldest <= newest {
        oldest <= rsn <= newest
    } else {
        rsn >= oldest || rsn <= newest
    }
}

/// Whether the window of sent frames accepts an incoming acknowledgement:
/// an empty window accepts only the current send counter; a window accepts
/// a repeat of the number just before its oldest entry, or any number that
/// lies in the window and names a pending entry.
pub open spec fn ack_ok(q: Seq<(u16, u64)>, frame_rss: u16, sent_counter: u16) -> bool {
    if q.len() == 0 {
        frame_rss == sent_counter
    } else {
        frame_rss == prev_seq(q[0].0) || (seq_in_window(frame_rss, q[0].0, q[q.len() - 1].0)
            && exists|i: int| 0 <= i < q.len() && (#[trigger] q[i]).0 == frame_rss)
    }
}

/// The unnumbered frame, as a value, that answers a test activation.
pub open spec fn test_fr_con_spec() -> UFrame {
    UFrame {
        start_dt_activation: false,
        start_dt_confirmation: false,
        stop_dt_activation: false,
        stop_dt_confirmation: false,
        test_fr_activation: false,
        test_fr_confirmation: true,
    }
}

/// The unnumbered frame, as a value, that confirms a start activation.
pub open spec fn start_dt_con_spec() -> UFrame {
    UFrame {
        start_dt_activation: false,
        start_dt_confirmation: true,
        stop_dt_activation: false,
        stop_dt_confirmation: false,
        test_fr_activation: false,
        test_fr_confirmation: false,
    }
}

/// The unnumbered frame, as a value, that confirms a stop activation.
pub open spec fn stop_dt_con_spec() -> UFrame {
    UFrame {
        start_dt_activation: false,
        start_dt_confirmation: false,
        stop_dt_activation: false,
        stop_dt_confirmation: true,
        test_fr_activation: false,
        test_fr_confirmation: false,
    }
}

/// The unnumbered frame that answers a test activation.
pub fn test_fr_con_frame() -> (r: UFrame)
    ensures
        r == test_fr_con_spec(),
{
    UFrame {
        start_dt_activation: false,
        start_dt_confirmation: false,
        stop_dt_activation: false,
        stop_dt_confirmation: false,
        test_fr_activation: false,
        test_fr_confirmation: true,
    }
}

/// The unnumbered frame that confirms a start activation.
pub fn start_dt_con_frame() -> (r: UFrame)
    ensures
        r == start_dt_con_spec(),
{
    UFrame {
        start_dt_activation: false,
        start_dt_confirmation: true,
        stop_dt_activation: false,
        stop_dt_confirmation: false,
        test_fr_activation: false,
        test_fr_confirmation: false,
    }
}

/// The unnumbered frame that confirms a stop activation.
pub fn stop_dt_con_frame() -> (r: UFrame)
    ensures
        r == stop_dt_con_spec(),
{
    UFrame {
        start_dt_activation: false,
        start_dt_confirmation: false,
        stop_dt_activation: false,
        stop_dt_confirmation: true,
        test_fr_activation: false,
        test_fr_confirmation: false,
    }
}

/// What the timer supervision asks the engine to do: the frames to emit
/// and the deadlines to arm afresh.
#[derive(Debug, Clone, Eq, PartialEq, Structural)]
pub struct TimerActions {
    /// Send a test activation.
    pub test_frame: bool,
    /// Send a supervisory frame carrying this number.
    pub supervisory: Option<u16>,
    /// Arm the idle deadline afresh.
    pub rearm_t3: bool,
    /// Arm the test-answer deadline afresh.
    pub rearm_t1_u: bool,
}

/// The per-connection session state the engine task mutates: counters,
/// windows and supervision counts. Timer deadlines live with the engine
/// loop that owns the clock; every decision here is a pure function of the
/// state and the event.
#[derive(Debug, Clone, PartialEq)]
pub struct ReceiveHandler {
    /// The send sequence number of the next outgoing I-frame.
    pub sent_counter: u16,
    /// The send sequence number expected on the next incoming I-frame.
    pub received_counter: u16,
    /// The acknowledgement points of sent I-frames not yet acknowledged,
    /// oldest first, each with its send time in milliseconds.
    pub unacknowledged_seq_num: Vec<(u16, u64)>,
    /// How many received I-frames have not been acknowledged yet.
    pub unacknowledged_rcv_frames: u16,
    /// How many test activations await their confirmation.
    pub outstanding_test_fr_con_messages: u16,
    /// The most sent frames that may await acknowledgement.
    pub k: u16,
    /// The most received frames that may await acknowledgement.
    pub w: u16,
}

impl ReceiveHandler {
    /// The invariant of a live session: both counters stay inside the
    /// fifteen-bit ring, neither window overflows its bound, and at most
    /// three test activations are ever outstanding.
    pub open spec fn wf(self) -> bool {
        &&& self.sent_counter < 32768
        &&& self.received_counter < 32768
        &&& self.unacknowledged_seq_num@.len() <= self.k
        &&& self.unacknowledged_rcv_frames <= self.w + 1
        &&& self.outstanding_test_fr_con_messages <= 3
        &&& 1 <= self.k <= 32767
        &&& 1 <= self.w <= self.k
    }

    /// A fresh session for the given window parameters.
    pub fn new(k: u16, w: u16) -> (r: ReceiveHandler)
        requires
            1 <= w <= k <= 32767,
        ensures
            r.wf(),
            r.sent_counter == 0,
            r.received_counter == 0,
            r.unacknowledged_seq_num@.len() == 0,
            r.unacknowledged_rcv_frames == 0,
            r.outstanding_test_fr_con_messages == 0,
            r.k == k,
            r.w == w,
    {
        ReceiveHandler {
            sent_counter: 0,
            received_counter: 0,
            unacknowledged_seq_num: Vec::new(),
            unacknowledged_rcv_frames: 0,
            outstanding_test_fr_con_messages: 0,
            k,
            w,
        }
    }

    /// Whether the send window is full: the fast-path back-pressure test.
    pub fn output_full(&self) -> (r: bool)
        ensures
            r == (self.unacknowledged_seq_num@.len() >= self.k),
    {
        self.unacknowledged_seq_num.len() >= self.k as usize
    }

    /// Validates an incoming acknowledgement against the window of sent
    /// frames and drops everything it acknowledges. An empty window accepts
    /// only the current send counter; a window accepts a repeat of the
    /// number just before its oldest entry, or any pending entry, dropping
    /// that entry and all before it; everything else is fatal.
    #[verifier::loop_isolation(false)]
    pub fn check_sequence_acknowledge(
        unacknowledged_seq_num: &mut Vec<(u16, u64)>,
        frame_rss: u16,
        sent_counter: u16,
    ) -> (r: Result<(), SessionError>)
        ensures
            r is Ok <==> ack_ok(old(unacknowledged_seq_num)@, frame_rss, sent_counter),
            r is Err ==> final(unacknowledged_seq_num)@ == old(unacknowledged_seq_num)@,
            r == Err::<(), SessionError>(SessionError::AckNotInWindow) || r == Ok::<
                (),
                SessionError,
            >(()),
            old(unacknowledged_seq_num)@.len() == 0 ==> final(unacknowledged_seq_num)@ == old(unacknowledged_seq_num)@,
            old(unacknowledged_seq_num)@.len() > 0 ==> {
                let q = old(unacknowledged_seq_num)@;
                &&& (frame_rss == prev_seq(q[0].0) ==> final(unacknowledged_seq_num)@ == q)
                &&& (r is Ok && frame_rss != prev_seq(q[0].0) ==> exists|i: int|
                    0 <= i < q.len() && (#[trigger] q[i]).0 == frame_rss
                        && final(unacknowledged_seq_num)@ == q.skip(i + 1))
            },
            final(unacknowledged_seq_num)@.len() <= old(unacknowledged_seq_num)@.len(),
    {
        let ghost q = unacknowledged_seq_num@;
        if unacknowledged_seq_num.len() == 0 {
            if frame_rss == sent_counter {
                return Ok(());
            }
            return Err(SessionError::AckNotInWindow);
        }
        let oldest = unacknowledged_seq_num[0].0;
        let newest = unacknowledged_seq_num[unacknowledged_seq_num.len() - 1].0;
        let is_valid = if oldest <= newest {
            frame_rss >= oldest && frame_rss <= newest
        } else {
            frame_rss >= oldest || frame_rss <= newest
        };
        let oldest_valid_seq_num: u16 = if oldest == 0 {
            32767
        } else {
            (oldest - 1) % 32768
        };
        if oldest_valid_seq_num == frame_rss {
            return Ok(());
        }
        if !is_valid {
            return Err(SessionError::AckNotInWindow);
        }
        let mut idx: usize = 0;
        while idx < unacknowledged_seq_num.len()
            invariant
                unacknowledged_seq_num@ == q,
                idx <= q.len(),
                forall|m: int| 0 <= m < idx ==> (#[trigger] q[m]).0 != frame_rss,
            decreases q.len() - idx,
        {
            if unacknowledged_seq_num[idx].0 == frame_rss {
                let mut j: usize = 0;
                let bound = idx + 1;
                while j < bound
                    invariant
                        j <= bound,
                        bound <= q.len(),
                        unacknowledged_seq_num@ == q.skip(j as int),
                    decreases bound - j,
                {
                    let ghost before = unacknowledged_seq_num@;
                    unacknowledged_seq_num.remove(0);
                    proof {
                        assert(before.remove(0) =~= q.skip(j + 1));
                    }
                    j = j + 1;
                }
                return Ok(());
            }
            idx = idx + 1;
        }
        Err(SessionError::AckNotInWindow)
    }

    /// Accepts one outgoing ASDU: hands back the sequence numbers to stamp
    /// the I-frame with, advances the send counter in the ring, appends the
    /// acknowledgement point to the window, and counts the piggybacked
    /// acknowledgement. Fails exactly when the window is already full.
    pub fn handle_send_asdu(&mut self, now_ms: u64) -> (r: Result<(u16, u16), SessionError>)
        requires
            old(self).wf(),
        ensures
            final(self).wf(),
            old(self).unacknowledged_seq_num@.len() >= old(self).k ==> r == Err::<
                (u16, u16),
                SessionError,
            >(SessionError::OutputBufferFull) && *final(self) == *old(self),
            old(self).unacknowledged_seq_num@.len() < old(self).k ==> {
                &&& r == Ok::<(u16, u16), SessionError>(
                    (old(self).sent_counter, old(self).received_counter),
                )
                &&& final(self).sent_counter == ((old(self).sent_counter + 1) as u16) % 32768
                &&& final(self).unacknowledged_seq_num@ == old(self).unacknowledged_seq_num@.push(
                    (final(self).sent_counter, now_ms),
                )
                &&& final(self).unacknowledged_rcv_frames == 0
                &&& final(self).received_counter == old(self).received_counter
                &&& final(self).outstanding_test_fr_con_messages == old(self).outstanding_test_fr_con_messages
                &&& final(self).k == old(self).k && final(self).w == old(self).w
            },
    {
        if self.unacknowledged_seq_num.len() >= self.k as usize {
            return Err(SessionError::OutputBufferFull);
        }
        let ssn = self.sent_counter;
        let rsn = self.received_counter;
        self.sent_counter = (self.sent_counter + 1) % 32768;
        self.unacknowledged_seq_num.push((self.sent_counter, now_ms));
        self.unacknowledged_rcv_frames = 0;
        Ok((ssn, rsn))
    }

    /// Accepts one incoming I-frame: the send sequence number must match
    /// the expectation exactly, the carried acknowledgement must fit the
    /// window, then the receive counter advances in the ring and the frame
    /// is counted against the acknowledgement debt.
    pub fn handle_receive_i_frame(&mut self, ssn: u16, rsn: u16) -> (r: Result<(), SessionError>)
        requires
            old(self).wf(),
            old(self).unacknowledged_rcv_frames <= old(self).w,
        ensures
            final(self).wf(),
            ssn != old(self).received_counter ==> r == Err::<(), SessionError>(
                SessionError::SequenceNumberMismatch,
            ) && *final(self) == *old(self),
            ssn == old(self).received_counter ==> (r is Ok <==> ack_ok(
                old(self).unacknowledged_seq_num@,
                rsn,
                old(self).sent_counter,
            )),
            r is Err ==> final(self).sent_counter == old(self).sent_counter && final(self).received_counter == old(self).received_counter && final(self).unacknowledged_rcv_frames == old(self).unacknowledged_rcv_frames && final(self).unacknowledged_seq_num@ == old(self).unacknowledged_seq_num@ && final(self).outstanding_test_fr_con_messages == old(self).outstanding_test_fr_con_messages
                && final(self).k == old(self).k && final(self).w == old(self).w,
            ssn == old(self).received_counter && r is Ok ==> {
                &&& final(self).received_counter == ((old(self).received_counter + 1) as u16)
                    % 32768
                &&& final(self).unacknowledged_rcv_frames == old(self).unacknowledged_rcv_frames
                    + 1
                &&& final(self).sent_counter == old(self).sent_counter
                &&& final(self).outstanding_test_fr_con_messages == old(self).outstanding_test_fr_con_messages
                &&& final(self).k == old(self).k
                &&& final(self).w == old(self).w
                &&& (old(self).unacknowledged_seq_num@.len() > 0 ==> {
                    let q = old(self).unacknowledged_seq_num@;
                    &&& (rsn == prev_seq(q[0].0) ==> final(self).unacknowledged_seq_num@ == q)
                    &&& (rsn != prev_seq(q[0].0) ==> exists|i: int|
                        0 <= i < q.len() && (#[trigger] q[i]).0 == rsn && final(self).unacknowledged_seq_num@ == q.skip(i + 1))
                })
                &&& (old(self).unacknowledged_seq_num@.len() == 0 ==> final(self).unacknowledged_seq_num@ == old(self).unacknowledged_seq_num@)
                &&& final(self).unacknowledged_seq_num@.len() <= old(self).unacknowledged_seq_num@.len()
            },
    {
        if ssn != self.received_counter {
            return Err(SessionError::SequenceNumberMismatch);
        }
        let ack = Self::check_sequence_acknowledge(
            &mut self.unacknowledged_seq_num,
            rsn,
            self.sent_counter,
        );
        if ack.is_err() {
            return Err(SessionError::AckNotInWindow);
        }
        self.received_counter = (self.received_counter + 1) % 32768;
        self.unacknowledged_rcv_frames = self.unacknowledged_rcv_frames + 1;
        Ok(())
    }

    /// Accepts one incoming S-frame: applies the acknowledgement to the
    /// window and changes nothing else.
    pub fn handle_receive_s_frame(&mut self, rsn: u16) -> (r: Result<(), SessionError>)
        requires
            old(self).wf(),
        ensures
            final(self).wf(),
            r is Ok <==> ack_ok(old(self).unacknowledged_seq_num@, rsn, old(self).sent_counter),
            r is Err ==> final(self).sent_counter == old(self).sent_counter && final(self).received_counter == old(self).received_counter && final(self).unacknowledged_rcv_frames == old(self).unacknowledged_rcv_frames && final(self).unacknowledged_seq_num@ == old(self).unacknowledged_seq_num@ && final(self).outstanding_test_fr_con_messages == old(self).outstanding_test_fr_con_messages
                && final(self).k == old(self).k && final(self).w == old(self).w,
            final(self).sent_counter == old(self).sent_counter,
            final(self).received_counter == old(self).received_counter,
            final(self).unacknowledged_rcv_frames == old(self).unacknowledged_rcv_frames,
            final(self).outstanding_test_fr_con_messages == old(self).outstanding_test_fr_con_messages,
            old(self).unacknowledged_seq_num@.len() > 0 ==> {
                let q = old(self).unacknowledged_seq_num@;
                &&& (rsn == prev_seq(q[0].0) ==> final(self).unacknowledged_seq_num@ == q)
                &&& (r is Ok && rsn != prev_seq(q[0].0) ==> exists|i: int|
                    0 <= i < q.len() && (#[trigger] q[i]).0 == rsn && final(self).unacknowledged_seq_num@ == q.skip(i + 1))
            },
            final(self).unacknowledged_seq_num@.len() <= old(self).unacknowledged_seq_num@.len(),
    {
        let ack = Self::check_sequence_acknowledge(
            &mut self.unacknowledged_seq_num,
            rsn,
            self.sent_counter,
        );
        if ack.is_err() {
            return Err(SessionError::AckNotInWindow);
        }
        Ok(())
    }

    /// Whether the acknowledgement debt ran past the window: the engine
    /// must answer with a supervisory frame now.
    pub fn needs_supervisory(&self) -> (r: bool)
        ensures
            r == (self.unacknowledged_rcv_frames > self.w),
    {
        self.unacknowledged_rcv_frames > self.w
    }

    /// Acknowledges everything received so far: hands back the number to
    /// put in the supervisory frame and clears the debt.
    pub fn confirm_all_messages(&mut self) -> (rsn: u16)
        requires
            old(self).wf(),
        ensures
            final(self).wf(),
            rsn == old(self).received_counter,
            final(self).unacknowledged_rcv_frames == 0,
            final(self).sent_counter == old(self).sent_counter,
            final(self).received_counter == old(self).received_counter,
            final(self).unacknowledged_seq_num@ == old(self).unacknowledged_seq_num@,
            final(self).outstanding_test_fr_con_messages == old(self).outstanding_test_fr_con_messages,
    {
        self.unacknowledged_rcv_frames = 0;
        self.received_counter
    }

    /// Counts one test activation about to be sent. More than two
    /// unanswered activations are fatal for the connection.
    pub fn send_test_frame(&mut self) -> (r: Result<(), SessionError>)
        requires
            old(self).wf(),
        ensures
            final(self).wf(),
            old(self).outstanding_test_fr_con_messages > 2 ==> r == Err::<(), SessionError>(
                SessionError::TooManyTestFrames,
            ) && *final(self) == *old(self),
            old(self).outstanding_test_fr_con_messages <= 2 ==> r is Ok && final(self).outstanding_test_fr_con_messages == old(self).outstanding_test_fr_con_messages + 1
                && final(self).sent_counter == old(self).sent_counter && final(self).received_counter == old(self).received_counter && final(self).unacknowledged_seq_num@ == old(self).unacknowledged_seq_num@,
    {
        if self.outstanding_test_fr_con_messages > 2 {
            return Err(SessionError::TooManyTestFrames);
        }
        self.outstanding_test_fr_con_messages = self.outstanding_test_fr_con_messages + 1;
        Ok(())
    }

    /// Decides the answer to an incoming unnumbered frame, as a pure
    /// function of the frame and the role: the reply to send, if any, and
    /// whether the data phase ends. A test activation is answered with a
    /// test confirmation; a start activation is answered by a server and
    /// fatal for a client; a stop activation is answered with a stop
    /// confirmation and ends the phase, as does a stop confirmation; a bare
    /// confirmation carries no reply, and the caller settles the test debt.
    pub fn handle_receive_u_frame(u: &UFrame, server: bool) -> (r: Result<
        (Option<UFrame>, bool),
        SessionError,
    >)
        ensures
            u.test_fr_activation ==> r == Ok::<(Option<UFrame>, bool), SessionError>(
                (Some(test_fr_con_spec()), false),
            ),
            !u.test_fr_activation && u.start_dt_activation ==> r == (if server {
                Ok::<(Option<UFrame>, bool), SessionError>((Some(start_dt_con_spec()), false))
            } else {
                Err::<(Option<UFrame>, bool), SessionError>(SessionError::UnexpectedStartActivation)
            }),
            !u.test_fr_activation && !u.start_dt_activation && u.start_dt_confirmation ==> r
                == Ok::<(Option<UFrame>, bool), SessionError>((None, false)),
            !u.test_fr_activation && !u.start_dt_activation && !u.start_dt_confirmation
                && u.stop_dt_activation ==> r == Ok::<(Option<UFrame>, bool), SessionError>(
                (Some(stop_dt_con_spec()), true),
            ),
            !u.test_fr_activation && !u.start_dt_activation && !u.start_dt_confirmation
                && !u.stop_dt_activation && u.stop_dt_confirmation ==> r == Ok::<
                (Option<UFrame>, bool),
                SessionError,
            >((None, true)),
            !u.test_fr_activation && !u.start_dt_activation && !u.start_dt_confirmation
                && !u.stop_dt_activation && !u.stop_dt_confirmation ==> r == Ok::<
                (Option<UFrame>, bool),
                SessionError,
            >((None, false)),
    {
        if u.test_fr_activation {
            Ok((Some(test_fr_con_frame()), false))
        } else if u.start_dt_activation {
            if server {
                Ok((Some(start_dt_con_frame()), false))
            } else {
                Err(SessionError::UnexpectedStartActivation)
            }
        } else if u.start_dt_confirmation {
            Ok((None, false))
        } else if u.stop_dt_activation {
            Ok((Some(stop_dt_con_frame()), true))
        } else if u.stop_dt_confirmation {
            Ok((None, true))
        } else {
            Ok((None, false))
        }
    }

    /// Compares the four deadlines against the clock and decides what the
    /// expiries demand. A passed acknowledgement deadline, for a test frame
    /// or for a sent I-frame, is fatal. A passed idle deadline sends a test
    /// activation and counts it, which is fatal above two outstanding. A
    /// passed receive-acknowledgement deadline with frames pending demands
    /// a supervisory frame carrying the receive counter and clears the
    /// debt.
    pub fn check_timeouts(
        &mut self,
        now_ms: u64,
        t1_i_deadline: u64,
        t1_u_deadline: u64,
        t2_deadline: u64,
        t3_deadline: u64,
    ) -> (r: Result<TimerActions, SessionError>)
        requires
            old(self).wf(),
        ensures
            final(self).wf(),
            now_ms >= t3_deadline && old(self).outstanding_test_fr_con_messages > 2 ==> r
                == Err::<TimerActions, SessionError>(SessionError::TooManyTestFrames),
            now_ms < t3_deadline || old(self).outstanding_test_fr_con_messages <= 2 ==> {
                &&& (now_ms >= t1_u_deadline ==> r == Err::<TimerActions, SessionError>(
                    SessionError::AcknowledgementTimeout,
                ))
                &&& (now_ms < t1_u_deadline && now_ms >= t1_i_deadline && old(self).unacknowledged_seq_num@.len() > 0 ==> r == Err::<TimerActions, SessionError>(
                    SessionError::AcknowledgementTimeout,
                ))
            },
            now_ms < t1_u_deadline && (old(self).unacknowledged_seq_num@.len() == 0 || now_ms
                < t1_i_deadline) && (now_ms < t3_deadline || old(self).outstanding_test_fr_con_messages <= 2) ==> r is Ok,
            r matches Ok(a) ==> {
                &&& (a.test_frame <==> now_ms >= t3_deadline)
                &&& (a.test_frame ==> final(self).outstanding_test_fr_con_messages == old(self).outstanding_test_fr_con_messages + 1 && a.rearm_t3 && a.rearm_t1_u)
                &&& (a.supervisory == (if now_ms >= t2_deadline && old(self).unacknowledged_rcv_frames > 0 {
                    Some(old(self).received_counter)
                } else {
                    None::<u16>
                }))
                &&& (a.supervisory is Some ==> final(self).unacknowledged_rcv_frames == 0)
                &&& (a.supervisory is None && !a.test_frame ==> *final(self) == *old(self))
                &&& final(self).sent_counter == old(self).sent_counter
                &&& final(self).received_counter == old(self).received_counter
                &&& final(self).unacknowledged_seq_num@ == old(self).unacknowledged_seq_num@
            },
    {
        let mut actions = TimerActions {
            test_frame: false,
            supervisory: None,
            rearm_t3: false,
            rearm_t1_u: false,
        };
        if now_ms >= t3_deadline {
            if self.outstanding_test_fr_con_messages > 2 {
                return Err(SessionError::TooManyTestFrames);
            }
            self.outstanding_test_fr_con_messages = self.outstanding_test_fr_con_messages + 1;
            actions.test_frame = true;
            actions.rearm_t3 = true;
            actions.rearm_t1_u = true;
        }
        if now_ms >= t2_deadline && self.unacknowledged_rcv_frames > 0 {
            actions.supervisory = Some(self.received_counter);
            self.unacknowledged_rcv_frames = 0;
        }
        if now_ms >= t1_u_deadline {
            return Err(SessionError::AcknowledgementTimeout);
        }
        if now_ms >= t1_i_deadline && self.unacknowledged_seq_num.len() > 0 {
            return Err(SessionError::AcknowledgementTimeout);
        }
        Ok(actions)
    }

    /// Accepts a test confirmation: the debt of unanswered activations is
    /// settled in full.
    pub fn handle_test_confirmation(&mut self)
        requires
            old(self).wf(),
        ensures
            final(self).wf(),
            final(self).outstanding_test_fr_con_messages == 0,
            final(self).sent_counter == old(self).sent_counter,
            final(self).received_counter == old(self).received_counter,
            final(self).unacknowledged_seq_num@ == old(self).unacknowledged_seq_num@,
            final(self).unacknowledged_rcv_frames == old(self).unacknowledged_rcv_frames,
    {
        self.outstanding_test_fr_con_messages = 0;
    }
}

} // verus!
