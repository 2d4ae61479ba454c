//! Decisions of one spliced connection: learning the session id from the
//! client's traffic, and the frames that an injected command puts on the
//! wire. The same frames go upstream and, in the same order, onto the
//! loopback queue towards the client.

use crate::commands::ProxyCommand;
use crate::frame::{extract_session_id, frame_of, session_id_in, Packet};
use crate::mix::views;
use crate::protocol::{default_session, default_session_id, tag};
use vstd::prelude::*;

verus! {

/// The session id in force on one connection.
pub struct SessionTracker {
    session_id: Vec<u8>,
}

impl View for SessionTracker {
    type V = Seq<u8>;

    closed spec fn view(&self) -> Seq<u8> {
        self.session_id@
    }
}

/// The session id after observing `data` with `current` in force.
pub open spec fn learned(current: Seq<u8>, data: Seq<u8>) -> Seq<u8> {
    match session_id_in(data) {
        Some(sid) => sid,
        None => current,
    }
}

/// Every payload of a command bound to a four-byte session id is short.
pub proof fn lemma_payloads_short(cmd: ProxyCommand, sid: Seq<u8>)
    requires
        sid.len() == 4,
    ensures
        forall|i: int|
            0 <= i < cmd.spec_payloads(sid).len() ==> (#[trigger] cmd.spec_payloads(sid)[i]).len()
                <= 64,
{
    reveal_strlit("channelOutputMute");
    reveal_strlit("channelInputSource");
    reveal_strlit("inputMicrophoneType");
    reveal_strlit("faderLevel");
    reveal_strlit("screenTouched");
    reveal_strlit("mixDisabled");
    reveal_strlit("mixLinkRequest");
    reveal_strlit("mixUnlinkRequest");
    assert(tag("channelOutputMute"@).len() <= 32);
    assert(tag("channelInputSource"@).len() <= 32);
    assert(tag("inputMicrophoneType"@).len() <= 32);
    assert(tag("faderLevel"@).len() <= 32);
    assert(tag("screenTouched"@).len() <= 32);
    assert(tag("mixDisabled"@).len() <= 32);
    assert(tag("mixLinkRequest"@).len() <= 32);
    assert(tag("mixUnlinkRequest"@).len() <= 32);
}

impl SessionTracker {
    #[verifier::type_invariant]
    spec fn four_bytes(&self) -> bool {
        self.session_id@.len() == 4
    }

    /// Starts with the default session id `01 01 01 01`.
    pub fn new() -> (r: SessionTracker)
        ensures
            r@ == default_session_id(),
    {
        SessionTracker { session_id: default_session() }
    }

    pub fn session_id(&self) -> (r: &[u8])
        ensures
            r@ == self@,
            r@.len() == 4,
    {
        proof {
            use_type_invariant(self);
        }
        self.session_id.as_slice()
    }

    /// Looks at the head of a buffer read from the client; a session id
    /// found there replaces the one in force. Reports whether one was found.
    pub fn observe(&mut self, data: &[u8]) -> (r: bool)
        ensures
            final(self)@ == learned(old(self)@, data@),
            r == session_id_in(data@) is Some,
    {
        match extract_session_id(data) {
            Some(sid) => {
                self.session_id = sid;
                true
            },
            None => false,
        }
    }

    /// The frames that inject `cmd` under the session id in force, in the
    /// order they are sent: each payload of the command, framed.
    pub fn injection(&self, cmd: &ProxyCommand) -> (r: Vec<Vec<u8>>)
        ensures
            r@.len() == cmd.spec_payloads(self@).len(),
            forall|j: int|
                0 <= j < r@.len() ==> (#[trigger] r@[j])@ == frame_of(cmd.spec_payloads(self@)[j]),
    {
        proof {
            use_type_invariant(self);
            lemma_payloads_short(*cmd, self@);
        }
        let payloads = cmd.build_payloads(self.session_id.as_slice());
        let ghost ps = cmd.spec_payloads(self@);
        assert(views(payloads@) == ps);
        let mut out: Vec<Vec<u8>> = Vec::new();
        let mut i: usize = 0;
        while i < payloads.len()
            invariant
                i <= payloads@.len(),
                views(payloads@) == ps,
                forall|j: int| 0 <= j < ps.len() ==> (#[trigger] ps[j]).len() <= 64,
                out@.len() == i,
                forall|j: int| 0 <= j < i ==> (#[trigger] out@[j])@ == frame_of(ps[j]),
            decreases payloads@.len() - i,
        {
            let p = vstd::slice::slice_to_vec(payloads[i].as_slice());
            assert(p@ == ps[i as int]);
            let packet = Packet::new(p);
            out.push(packet.to_bytes());
            i += 1;
        }
        out
    }
}

/// Pause between two frames of one injected command, in milliseconds.
pub const INJECTION_GAP_MS: u64 = 50;

/// Where the injection of one command stands.
#[derive(Debug, Clone, Copy, PartialEq, Eq, Structural)]
pub enum InjectionPhase {
    /// About to start on this frame.
    Next { frame: usize },
    /// The pause before this frame is over: queue it for loopback.
    Queue { frame: usize },
    /// This frame is queued for loopback: write it upstream.
    Send { frame: usize },
    /// This frame was written upstream (or the write failed).
    Sent { frame: usize },
    /// Nothing is left to do.
    Finished,
}

/// What the connection does next for an injected command.
#[derive(Debug, Clone, Copy, PartialEq, Eq, Structural)]
pub enum InjectionAction {
    /// Wait before the next frame.
    Pause { millis: u64 },
    /// Put this frame on the loopback queue towards the client.
    Enqueue { frame: usize },
    /// Write this frame upstream.
    Write { frame: usize },
    /// The command is done, or abandoned after a failed write.
    Stop,
}

/// One step of injecting a command of `count` frames: each frame is queued
/// for loopback, then written upstream; frames after the first wait
/// `INJECTION_GAP_MS` first; a failed upstream write abandons the rest.
pub open spec fn injection_transition(phase: InjectionPhase, count: usize, write_failed: bool) -> (
    InjectionAction,
    InjectionPhase,
) {
    match phase {
        InjectionPhase::Next { frame } => {
            if frame >= count {
                (InjectionAction::Stop, InjectionPhase::Finished)
            } else if frame == 0 {
                (InjectionAction::Enqueue { frame }, InjectionPhase::Send { frame })
            } else {
                (
                    InjectionAction::Pause { millis: INJECTION_GAP_MS },
                    InjectionPhase::Queue { frame },
                )
            }
        },
        InjectionPhase::Queue { frame } => (
            InjectionAction::Enqueue { frame },
            InjectionPhase::Send { frame },
        ),
        InjectionPhase::Send { frame } => (
            InjectionAction::Write { frame },
            InjectionPhase::Sent { frame },
        ),
        InjectionPhase::Sent { frame } => {
            if write_failed || frame + 1 >= count {
                (InjectionAction::Stop, InjectionPhase::Finished)
            } else {
                (
                    InjectionAction::Pause { millis: INJECTION_GAP_MS },
                    InjectionPhase::Queue { frame: (frame + 1) as usize },
                )
            }
        },
        InjectionPhase::Finished => (InjectionAction::Stop, InjectionPhase::Finished),
    }
}

/// The next action for an injected command of `count` frames, and the phase
/// after it. `write_failed` tells whether the last upstream write failed; it
/// matters only right after a write.
pub fn injection_step(phase: InjectionPhase, count: usize, write_failed: bool) -> (r: (
    InjectionAction,
    InjectionPhase,
))
    ensures
        r == injection_transition(phase, count, write_failed),
{
    match phase {
        InjectionPhase::Next { frame } => {
            if frame >= count {
                (InjectionAction::Stop, InjectionPhase::Finished)
            } else if frame == 0 {
                (InjectionAction::Enqueue { frame }, InjectionPhase::Send { frame })
            } else {
                (
                    InjectionAction::Pause { millis: INJECTION_GAP_MS },
                    InjectionPhase::Queue { frame },
                )
            }
        },
        InjectionPhase::Queue { frame } => (
            InjectionAction::Enqueue { frame },
            InjectionPhase::Send { frame },
        ),
        InjectionPhase::Send { frame } => (
            InjectionAction::Write { frame },
            InjectionPhase::Sent { frame },
        ),
        InjectionPhase::Sent { frame } => {
            if write_failed || frame >= count || count - frame <= 1 {
                (InjectionAction::Stop, InjectionPhase::Finished)
            } else {
                (
                    InjectionAction::Pause { millis: INJECTION_GAP_MS },
                    InjectionPhase::Queue { frame: frame + 1 },
                )
            }
        },
        InjectionPhase::Finished => (InjectionAction::Stop, InjectionPhase::Finished),
    }
}

/// The actions taken from `phase` when no upstream write fails, for at most
/// `fuel` steps, up to and including the first stop.
pub open spec fn run_actions(phase: InjectionPhase, count: usize, fuel: nat) -> Seq<InjectionAction>
    decreases fuel,
{
    if fuel == 0 {
        seq![]
    } else {
        let (a, next) = injection_transition(phase, count, false);
        if a is Stop {
            seq![a]
        } else {
            seq![a] + run_actions(next, count, (fuel - 1) as nat)
        }
    }
}

/// Frames `from` to `count - 1`, each after a pause, queued then written.
pub open spec fn paced_frames(from: int, count: int) -> Seq<InjectionAction>
    decreases count - from,
{
    if from >= count || from < 0 {
        seq![]
    } else {
        seq![
            InjectionAction::Pause { millis: INJECTION_GAP_MS },
            InjectionAction::Enqueue { frame: from as usize },
            InjectionAction::Write { frame: from as usize },
        ] + paced_frames(from + 1, count)
    }
}

proof fn lemma_paced_tail(i: usize, count: usize)
    requires
        1 <= i <= count,
    ensures
        run_actions(InjectionPhase::Sent { frame: (i - 1) as usize }, count, (3 * (count - i) + 1) as nat)
            == paced_frames(i as int, count as int) + seq![InjectionAction::Stop],
    decreases count - i,
{
    let fuel = (3 * (count - i) + 1) as nat;
    if i == count {
        assert(run_actions(InjectionPhase::Sent { frame: (i - 1) as usize }, count, fuel) == seq![
            InjectionAction::Stop,
        ]);
        assert(paced_frames(i as int, count as int) + seq![InjectionAction::Stop] =~= seq![
            InjectionAction::Stop,
        ]);
    } else {
        lemma_paced_tail((i + 1) as usize, count);
        let rest = run_actions(InjectionPhase::Sent { frame: i }, count, (fuel - 3) as nat);
        assert(run_actions(InjectionPhase::Send { frame: i }, count, (fuel - 2) as nat) == seq![
            InjectionAction::Write { frame: i },
        ] + rest);
        assert(run_actions(InjectionPhase::Queue { frame: i }, count, (fuel - 1) as nat) == seq![
            InjectionAction::Enqueue { frame: i },
        ] + (seq![InjectionAction::Write { frame: i }] + rest));
        assert(run_actions(InjectionPhase::Sent { frame: (i - 1) as usize }, count, fuel) =~= seq![
            InjectionAction::Pause { millis: INJECTION_GAP_MS },
            InjectionAction::Enqueue { frame: i },
            InjectionAction::Write { frame: i },
        ] + rest);
        assert(paced_frames(i as int, count as int) + seq![InjectionAction::Stop] =~= seq![
            InjectionAction::Pause { millis: INJECTION_GAP_MS },
            InjectionAction::Enqueue { frame: i },
            InjectionAction::Write { frame: i },
        ] + (paced_frames(i + 1, count as int) + seq![InjectionAction::Stop]));
    }
}

/// Injecting a command of `count` frames with no failed upstream write: each
/// frame is queued for loopback and then written upstream, in order; every
/// frame after the first waits `INJECTION_GAP_MS` first; then it stops. A
/// command with no frames stops at once.
pub proof fn lemma_injection_schedule(count: usize)
    ensures
        count == 0 ==> run_actions(InjectionPhase::Next { frame: 0 }, count, 1) == seq![
            InjectionAction::Stop,
        ],
        count > 0 ==> run_actions(InjectionPhase::Next { frame: 0 }, count, (3 * count) as nat)
            == seq![InjectionAction::Enqueue { frame: 0 }, InjectionAction::Write { frame: 0 }]
            + paced_frames(1, count as int) + seq![InjectionAction::Stop],
{
    if count == 0 {
        assert(run_actions(InjectionPhase::Next { frame: 0 }, count, 1) == seq![
            InjectionAction::Stop,
        ]);
    } else {
        let fuel = (3 * count) as nat;
        lemma_paced_tail(1, count);
        let rest = run_actions(InjectionPhase::Sent { frame: 0 }, count, (fuel - 2) as nat);
        assert(run_actions(InjectionPhase::Send { frame: 0 }, count, (fuel - 1) as nat) == seq![
            InjectionAction::Write { frame: 0 },
        ] + rest);
        assert(run_actions(InjectionPhase::Next { frame: 0 }, count, fuel) =~= seq![
            InjectionAction::Enqueue { frame: 0 },
            InjectionAction::Write { frame: 0 },
        ] + rest);
        assert(seq![InjectionAction::Enqueue { frame: 0 }, InjectionAction::Write { frame: 0 }]
            + paced_frames(1, count as int) + seq![InjectionAction::Stop] =~= seq![
            InjectionAction::Enqueue { frame: 0 },
            InjectionAction::Write { frame: 0 },
        ] + (paced_frames(1, count as int) + seq![InjectionAction::Stop]));
    }
}

/// After a failed upstream write nothing more of the command is done.
pub proof fn lemma_failed_write_stops(frame: usize, count: usize)
    ensures
        injection_transition(InjectionPhase::Sent { frame }, count, true) == (
            InjectionAction::Stop,
            InjectionPhase::Finished,
        ),
{
}

} // verus!
