//! The session controller: owns the single "is a session active" flag,
//! serializes capture sessions, and records the corrected guard ordering
//! (capability first, exclusivity second).

use vstd::prelude::*;

verus! {

/// The platform the backend runs on; audio capture is only available on
/// macOS, every other platform reports an explicit unsupported capability.
#[derive(Clone, Copy, Debug, PartialEq, Eq, Structural)]
pub enum Platform {
    MacOs,
    Unsupported,
}

/// Checks the capability to capture audio. The capture engine only exists on
/// macOS, where the permission is granted by the simulated recognizer.
pub fn check_microphone_permission(platform: &Platform) -> (r: Result<(), String>)
    ensures
        platform is MacOs <==> r is Ok,
        r matches Err(m) ==> m@ == "Microphone permission check not supported on this platform"@,
{
    match platform {
        Platform::MacOs => Ok(()),
        Platform::Unsupported => Err(
            String::from_str("Microphone permission check not supported on this platform"),
        ),
    }
}

/// A synchronous rejection of `start`: either the caller lacks the capture
/// capability, or a session is already active.
#[derive(Clone, Debug, PartialEq, Eq)]
pub enum StartError {
    PermissionDenied { message: String },
    AlreadyActive,
}

impl StartError {
    /// The diagnostic text reported to the caller.
    pub fn message(&self) -> (r: String)
        ensures
            self matches StartError::PermissionDenied { message } ==> r@ == "Microphone permission denied: "@
                + message@,
            self is AlreadyActive ==> r@ == "Transcription already active"@,
    {
        match self {
            StartError::PermissionDenied { message } => String::from_str(
                "Microphone permission denied: ",
            ).concat(message.as_str()),
            StartError::AlreadyActive => String::from_str("Transcription already active"),
        }
    }
}

/// One observable transition request made of the controller, in the order the
/// requests arrived. `permitted` records whether the start caller held the
/// audio-capture capability.
pub enum SessionEvent {
    StartAttempt { permitted: bool },
    Stop,
    ProducerDone,
}

/// The session flag after a sequence of transition requests, starting from an
/// idle controller. A permitted start on an idle controller activates the
/// flag; a stop or a terminal producer event clears it; everything else
/// leaves it unchanged.
pub open spec fn flag_after(events: Seq<SessionEvent>) -> bool
    decreases events.len(),
{
    if events.len() == 0 {
        false
    } else {
        match events.last() {
            SessionEvent::StartAttempt { permitted } => (permitted && !flag_after(
                events.drop_last(),
            )) || flag_after(events.drop_last()),
            SessionEvent::Stop => false,
            SessionEvent::ProducerDone => false,
        }
    }
}

/// The start request at index `i` succeeded: its caller was permitted and no
/// session was active when it arrived.
pub open spec fn start_succeeds_at(events: Seq<SessionEvent>, i: int) -> bool {
    &&& events[i] matches SessionEvent::StartAttempt { permitted: true }
    &&& !flag_after(events.take(i))
}

/// The event ends any active session.
pub open spec fn ends_session(e: SessionEvent) -> bool {
    e is Stop || e is ProducerDone
}

/// The session flag is set exactly when some successful start has no later
/// stop and no later terminal producer event.
pub proof fn lemma_flag_iff_unended_start(events: Seq<SessionEvent>)
    ensures
        flag_after(events) <==> exists|i: int|
            0 <= i < events.len() && #[trigger] start_succeeds_at(events, i) && (forall|j: int|
                i < j < events.len() ==> !ends_session(#[trigger] events[j])),
    decreases events.len(),
{
    if events.len() == 0 {
    } else {
        let prefix = events.drop_last();
        lemma_flag_iff_unended_start(prefix);
        assert(prefix == events.take(events.len() - 1));
        assert forall|i: int| 0 <= i < prefix.len() implies (start_succeeds_at(prefix, i)
            <==> start_succeeds_at(events, i)) by {
            assert(prefix.take(i) == events.take(i));
        }
        let last = events.last();
        match last {
            SessionEvent::StartAttempt { permitted } => {
                if permitted && !flag_after(prefix) {
                    assert(start_succeeds_at(events, events.len() - 1));
                } else {
                    if flag_after(events) {
                        let i = choose|i: int|
                            0 <= i < prefix.len() && #[trigger] start_succeeds_at(prefix, i) && (
                            forall|j: int| i < j < prefix.len() ==> !ends_session(
                                #[trigger] prefix[j],
                            ));
                        assert(start_succeeds_at(events, i));
                        assert forall|j: int| i < j < events.len() implies !ends_session(
                            #[trigger] events[j],
                        ) by {
                            if j < events.len() - 1 {
                                assert(events[j] == prefix[j]);
                            }
                        }
                    }
                    if exists|i: int|
                        0 <= i < events.len() && #[trigger] start_succeeds_at(events, i) && (
                        forall|j: int| i < j < events.len() ==> !ends_session(
                            #[trigger] events[j],
                        )) {
                        let i = choose|i: int|
                            0 <= i < events.len() && #[trigger] start_succeeds_at(events, i) && (
                            forall|j: int| i < j < events.len() ==> !ends_session(
                                #[trigger] events[j],
                            ));
                        if i == events.len() - 1 {
                            assert(events.take(i) == prefix);
                        } else {
                            assert(start_succeeds_at(prefix, i));
                            assert forall|j: int| i < j < prefix.len() implies !ends_session(
                                #[trigger] prefix[j],
                            ) by {
                                assert(prefix[j] == events[j]);
                            }
                        }
                    }
                }
            },
            _ => {
                if exists|i: int|
                    0 <= i < events.len() && #[trigger] start_succeeds_at(events, i) && (forall|
                        j: int,
                    | i < j < events.len() ==> !ends_session(#[trigger] events[j])) {
                    let i = choose|i: int|
                        0 <= i < events.len() && #[trigger] start_succeeds_at(events, i) && (
                        forall|j: int| i < j < events.len() ==> !ends_session(
                            #[trigger] events[j],
                        ));
                    assert(i < events.len() - 1 ==> !ends_session(events[events.len() - 1]));
                    assert(i == events.len() - 1 ==> !(last is Stop || last is ProducerDone));
                    assert(false);
                }
            },
        }
    }
}

/// Sessions are serialized: two successful starts always have a stop or a
/// terminal producer event between them, so at most one producer task is ever
/// scheduled per round.
pub proof fn lemma_exclusive_starts(events: Seq<SessionEvent>, i: int, j: int)
    requires
        0 <= i < j < events.len(),
        start_succeeds_at(events, i),
        start_succeeds_at(events, j),
    ensures
        exists|k: int| i < k < j && ends_session(#[trigger] events[k]),
{
    if !(exists|k: int| i < k < j && ends_session(#[trigger] events[k])) {
        let p = events.take(j);
        lemma_flag_iff_unended_start(p);
        assert(p.take(i) == events.take(i));
        assert(start_succeeds_at(p, i));
        assert forall|m: int| i < m < p.len() implies !ends_session(#[trigger] p[m]) by {
            assert(p[m] == events[m]);
        }
        assert(flag_after(p));
        assert(!flag_after(events.take(j)));
    }
}

/// The controller that owns the session flag. The real process keeps one
/// instance behind a mutual-exclusion lock; every read or write of the flag
/// goes through these operations, none of which suspends, so the lock is
/// never held across an await.
pub struct SessionController {
    active: bool,
    history: Ghost<Seq<SessionEvent>>,
}

impl SessionController {
    /// The current value of the session flag.
    pub closed spec fn active(self) -> bool {
        self.active
    }

    /// The transition requests the controller has processed so far.
    pub closed spec fn history(self) -> Seq<SessionEvent> {
        self.history@
    }

    /// The flag always equals the fold of the processed history.
    pub closed spec fn inv(self) -> bool {
        self.active == flag_after(self.history@)
    }

    /// A fresh controller: idle, with no history.
    pub fn new() -> (r: SessionController)
        ensures
            r.inv(),
            !r.active(),
            r.history() == Seq::<SessionEvent>::empty(),
    {
        SessionController { active: false, history: Ghost(Seq::empty()) }
    }

    /// Reads the session flag; the producer polls this once per cadence tick.
    pub fn is_active(&self) -> (r: bool)
        ensures
            r == self.active(),
    {
        self.active
    }

    /// Starts a capture session. The capability is checked first; a denied
    /// caller is rejected without touching the flag. Only then is exclusivity
    /// evaluated: a second start on an active session fails with
    /// `AlreadyActive` and has no effect. On success the flag is set and the
    /// language the producer must be launched with (the requested tag, or the
    /// default) is returned; the caller schedules the producer task and must
    /// not wait for it.
    pub fn start(&mut self, platform: &Platform, language: Option<String>) -> (r: Result<
        String,
        StartError,
    >)
        requires
            old(self).inv(),
        ensures
            final(self).inv(),
            final(self).history() == old(self).history().push(
                SessionEvent::StartAttempt { permitted: platform is MacOs },
            ),
            !(platform is MacOs) ==> {
                &&& r matches Err(StartError::PermissionDenied { message })
                &&& message@ == "Microphone permission check not supported on this platform"@
                &&& final(self).active() == old(self).active()
            },
            platform is MacOs && old(self).active() ==> r == Err::<String, StartError>(
                StartError::AlreadyActive,
            ) && final(self).active(),
            platform is MacOs && !old(self).active() ==> {
                &&& final(self).active()
                &&& match language {
                    Some(l) => r == Ok::<String, StartError>(l),
                    None => r matches Ok(l) && l@ == "en-US"@,
                }
            },
    {
        let permitted = matches!(platform, Platform::MacOs);
        proof {
            self.history@ = self.history@.push(SessionEvent::StartAttempt { permitted });
            assert(self.history@.drop_last() =~= old(self).history@);
        }
        if let Err(message) = check_microphone_permission(platform) {
            return Err(StartError::PermissionDenied { message });
        }
        if self.active {
            return Err(StartError::AlreadyActive);
        }
        self.active = true;
        match language {
            Some(l) => Ok(l),
            None => Ok(String::from_str("en-US")),
        }
    }

    /// Stops the session. Always succeeds and clears the flag; stopping an
    /// idle session is a no-op. The producer is not terminated here: it
    /// observes the cleared flag cooperatively, so at most one further
    /// fragment may still race in after this returns.
    pub fn stop(&mut self)
        requires
            old(self).inv(),
        ensures
            final(self).inv(),
            !final(self).active(),
            final(self).history() == old(self).history().push(SessionEvent::Stop),
    {
        proof {
            self.history@ = self.history@.push(SessionEvent::Stop);
            assert(self.history@.drop_last() =~= old(self).history@);
        }
        self.active = false;
    }

    /// Records that the producer reached its terminal fragment or failed:
    /// the session ends on its own and the flag is cleared.
    pub fn on_producer_done(&mut self)
        requires
            old(self).inv(),
        ensures
            final(self).inv(),
            !final(self).active(),
            final(self).history() == old(self).history().push(SessionEvent::ProducerDone),
    {
        proof {
            self.history@ = self.history@.push(SessionEvent::ProducerDone);
            assert(self.history@.drop_last() =~= old(self).history@);
        }
        self.active = false;
    }
}

} // verus!
