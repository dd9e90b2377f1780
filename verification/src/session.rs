//! The interactive session as a state machine.
//!
//! The caller owns the terminal and the file. It asks the current phase what
//! to do, does it, and hands back what came of it as an event; the machine
//! decides what follows. A session asks for a username, asks for a password
//! only where the store lists that username, and ends with one outcome.

use crate::lookup::{has_user, is_valid_username};
use crate::password::{is_valid_password, password_accepted};
use crate::store::store_of;
use vstd::prelude::*;

verus! {

/// Whether the character has the Unicode property White_Space, by which
/// `str::trim` tells what to remove: the code points that the Unicode
/// Character Database lists under that property.
pub open spec fn is_white_space(c: char) -> bool {
    let n: u32 = c as u32;
    ||| 0x0009 <= n <= 0x000D
    ||| n == 0x0020
    ||| n == 0x0085
    ||| n == 0x00A0
    ||| n == 0x1680
    ||| 0x2000 <= n <= 0x200A
    ||| n == 0x2028
    ||| n == 0x2029
    ||| n == 0x202F
    ||| n == 0x205F
    ||| n == 0x3000
}

/// The text without the white space that it starts with.
pub open spec fn trim_start(s: Seq<char>) -> Seq<char>
    decreases s.len(),
{
    if s.len() > 0 && is_white_space(s.first()) {
        trim_start(s.drop_first())
    } else {
        s
    }
}

/// The text without the white space that it ends with.
pub open spec fn trim_end(s: Seq<char>) -> Seq<char>
    decreases s.len(),
{
    if s.len() > 0 && is_white_space(s.last()) {
        trim_end(s.drop_last())
    } else {
        s
    }
}

/// The text without the white space at either end.
pub open spec fn trimmed(s: Seq<char>) -> Seq<char> {
    trim_end(trim_start(s))
}

/// Whether every character of the text is white space.
pub open spec fn all_white_space(s: Seq<char>) -> bool {
    forall|i: int| 0 <= i < s.len() ==> is_white_space(#[trigger] s[i])
}

proof fn lemma_trim_start_skips(lead: Seq<char>, rest: Seq<char>)
    requires
        all_white_space(lead),
    ensures
        trim_start(lead + rest) == trim_start(rest),
    decreases lead.len(),
{
    if lead.len() == 0 {
        assert(lead + rest =~= rest);
    } else {
        let whole = lead + rest;
        assert(whole.first() == lead[0]);
        assert(whole.drop_first() =~= lead.drop_first() + rest);
        assert forall|i: int| 0 <= i < lead.drop_first().len() implies is_white_space(
            #[trigger] lead.drop_first()[i],
        ) by {
            assert(lead.drop_first()[i] == lead[i + 1]);
        }
        lemma_trim_start_skips(lead.drop_first(), rest);
    }
}

proof fn lemma_trim_end_skips(rest: Seq<char>, trail: Seq<char>)
    requires
        all_white_space(trail),
    ensures
        trim_end(rest + trail) == trim_end(rest),
    decreases trail.len(),
{
    if trail.len() == 0 {
        assert(rest + trail =~= rest);
    } else {
        let whole = rest + trail;
        assert(whole.last() == trail[trail.len() - 1]);
        assert(whole.drop_last() =~= rest + trail.drop_last());
        assert forall|i: int| 0 <= i < trail.drop_last().len() implies is_white_space(
            #[trigger] trail.drop_last()[i],
        ) by {
            assert(trail.drop_last()[i] == trail[i]);
        }
        lemma_trim_end_skips(rest, trail.drop_last());
    }
}

/// Trimming takes the white space off both ends and nothing else: a text
/// that neither starts nor ends with white space, with white space put
/// before and after it, trims to itself.
pub proof fn lemma_trimmed_of_padded(lead: Seq<char>, core: Seq<char>, trail: Seq<char>)
    requires
        all_white_space(lead),
        all_white_space(trail),
        core.len() > 0 ==> !is_white_space(core.first()) && !is_white_space(core.last()),
    ensures
        trimmed(lead + core + trail) == core,
{
    assert(lead + core + trail =~= lead + (core + trail));
    lemma_trim_start_skips(lead, core + trail);
    if core.len() > 0 {
        assert((core + trail).first() == core.first());
        lemma_trim_end_skips(core, trail);
    } else {
        assert(core + trail =~= trail + core);
        lemma_trim_start_skips(trail, core);
    }
}

/// Calls `str::trim`: the result is the line without its leading and
/// trailing white space, as Unicode's White_Space property defines it.
#[verifier::external_body]
fn trim(line: &str) -> (t: &str)
    ensures
        t@ == trimmed(line@),
{
    line.trim()
}

/// How a session ends.
#[derive(Debug, Clone, Copy, PartialEq, Eq, Structural)]
pub enum Outcome {
    /// The username is listed and the password is right for it.
    Granted,
    /// The username is not listed, or the password is not right for it.
    Denied,
    /// The store could not be opened.
    StoreUnavailable,
}

/// What the user is asked for.
#[derive(Debug, Clone, Copy, PartialEq, Eq, Structural)]
pub enum Prompt {
    Username,
    Password,
}

/// What the caller is to do for the current phase.
#[derive(Debug, Clone, Copy, PartialEq, Eq, Structural)]
pub enum Action {
    /// Try to open the store, and report whether that worked.
    ProbeStore,
    /// Print the prompt, read one line, read the store afresh, and report
    /// both.
    Ask { prompt: Prompt },
    /// Print the outcome's message and stop.
    Report { outcome: Outcome },
}

/// What the caller reports back.
#[derive(Debug, Clone, PartialEq, Eq)]
pub enum Event {
    /// The store was probed; `opened` is false where no path was given or
    /// the file did not open.
    StoreProbed { opened: bool },
    /// A line was read. `db` holds the bytes of the store as they were read
    /// after the line, or `None` where the store could not be read.
    LineRead { line: String, db: Option<Vec<u8>> },
}

/// An event as a plain value.
pub enum EventModel {
    StoreProbed { opened: bool },
    LineRead { line: Seq<char>, db: Option<Seq<u8>> },
}

impl View for Event {
    type V = EventModel;

    open spec fn view(&self) -> EventModel {
        match self {
            Event::StoreProbed { opened } => EventModel::StoreProbed { opened: *opened },
            Event::LineRead { line, db } => EventModel::LineRead {
                line: line@,
                db: match db {
                    Some(bytes) => Some(bytes@),
                    None => None,
                },
            },
        }
    }
}

/// Where a session stands.
#[derive(Debug, Clone, PartialEq, Eq)]
pub enum Phase {
    /// Nothing has happened yet.
    Start,
    /// The store opens; the username is awaited.
    AwaitUsername,
    /// The store lists the username; the password is awaited.
    AwaitPassword { username: String },
    /// The session is over.
    Finished { outcome: Outcome },
}

/// A phase as a plain value.
pub enum PhaseModel {
    Start,
    AwaitUsername,
    AwaitPassword { username: Seq<char> },
    Finished { outcome: Outcome },
}

impl View for Phase {
    type V = PhaseModel;

    open spec fn view(&self) -> PhaseModel {
        match self {
            Phase::Start => PhaseModel::Start,
            Phase::AwaitUsername => PhaseModel::AwaitUsername,
            Phase::AwaitPassword { username } => PhaseModel::AwaitPassword { username: username@ },
            Phase::Finished { outcome } => PhaseModel::Finished { outcome: *outcome },
        }
    }
}

/// The text of a prompt.
pub open spec fn prompt_text(prompt: Prompt) -> Seq<char> {
    match prompt {
        Prompt::Username => "Enter username: "@,
        Prompt::Password => "Enter password: "@,
    }
}

/// The line that reports an outcome.
pub open spec fn outcome_message(outcome: Outcome) -> Seq<char> {
    match outcome {
        Outcome::Granted => "Access Granted!"@,
        Outcome::Denied => "Error! Access Denied!"@,
        Outcome::StoreUnavailable => "Error! Password database not found!"@,
    }
}

/// What a phase asks of the caller.
pub open spec fn action_of(phase: PhaseModel) -> Action {
    match phase {
        PhaseModel::Start => Action::ProbeStore,
        PhaseModel::AwaitUsername => Action::Ask { prompt: Prompt::Username },
        PhaseModel::AwaitPassword { .. } => Action::Ask { prompt: Prompt::Password },
        PhaseModel::Finished { outcome } => Action::Report { outcome },
    }
}

/// The phase that follows a username line read while the store held `db`.
pub open spec fn after_username(line: Seq<char>, db: Option<Seq<u8>>) -> PhaseModel {
    match db {
        Some(bytes) => if has_user(store_of(bytes), trimmed(line)) {
            PhaseModel::AwaitPassword { username: trimmed(line) }
        } else {
            PhaseModel::Finished { outcome: Outcome::Denied }
        },
        None => PhaseModel::Finished { outcome: Outcome::StoreUnavailable },
    }
}

/// The phase that follows a password line for `username`, read while the
/// store held `db`.
pub open spec fn after_password(
    username: Seq<char>,
    line: Seq<char>,
    db: Option<Seq<u8>>,
) -> PhaseModel {
    match db {
        Some(bytes) => if password_accepted(store_of(bytes), username, trimmed(line)) {
            PhaseModel::Finished { outcome: Outcome::Granted }
        } else {
            PhaseModel::Finished { outcome: Outcome::Denied }
        },
        None => PhaseModel::Finished { outcome: Outcome::StoreUnavailable },
    }
}

/// The phase that follows `phase` on `event`. An event that the phase did
/// not ask for changes nothing.
pub open spec fn next_phase(phase: PhaseModel, event: EventModel) -> PhaseModel {
    match (phase, event) {
        (PhaseModel::Start, EventModel::StoreProbed { opened }) => if opened {
            PhaseModel::AwaitUsername
        } else {
            PhaseModel::Finished { outcome: Outcome::StoreUnavailable }
        },
        (PhaseModel::AwaitUsername, EventModel::LineRead { line, db }) => after_username(line, db),
        (PhaseModel::AwaitPassword { username }, EventModel::LineRead { line, db }) => after_password(
            username,
            line,
            db,
        ),
        _ => phase,
    }
}

/// How far a session has come.
pub open spec fn progress(phase: PhaseModel) -> nat {
    match phase {
        PhaseModel::Start => 0,
        PhaseModel::AwaitUsername => 1,
        PhaseModel::AwaitPassword { .. } => 2,
        PhaseModel::Finished { .. } => 3,
    }
}

/// A session never goes back, and a finished session stays as it is: there
/// is no retry.
pub proof fn lemma_session_never_goes_back(phase: PhaseModel, event: EventModel)
    ensures
        progress(next_phase(phase, event)) >= progress(phase),
        phase is Finished ==> next_phase(phase, event) == phase,
{
}

/// The phase that a session has reached from `phase` once the events have
/// come in, in their order.
pub open spec fn phase_after(phase: PhaseModel, events: Seq<EventModel>) -> PhaseModel
    decreases events.len(),
{
    if events.len() == 0 {
        phase
    } else {
        phase_after(next_phase(phase, events.first()), events.drop_first())
    }
}

/// A finished session stays as it is, whatever events still come in.
pub proof fn lemma_finished_stays_finished(phase: PhaseModel, events: Seq<EventModel>)
    requires
        phase is Finished,
    ensures
        phase_after(phase, events) == phase,
    decreases events.len(),
{
    if events.len() > 0 {
        lemma_finished_stays_finished(phase, events.drop_first());
    }
}

/// A store that does not open ends the session before any prompt: where the
/// first event of a session is a failed probe, the session is finished from
/// then on with the store unavailable, and at no point of it, before or
/// after, is the caller asked to prompt for anything.
pub proof fn lemma_unopened_store_never_prompts(events: Seq<EventModel>, n: int)
    requires
        events.len() > 0,
        events[0] == (EventModel::StoreProbed { opened: false }),
        0 <= n <= events.len(),
    ensures
        !(action_of(phase_after(PhaseModel::Start, events.take(n))) is Ask),
        n >= 1 ==> phase_after(PhaseModel::Start, events.take(n)) == (PhaseModel::Finished {
            outcome: Outcome::StoreUnavailable,
        }),
{
    if n >= 1 {
        let seen = events.take(n);
        assert(seen.first() == events[0]);
        lemma_finished_stays_finished(
            PhaseModel::Finished { outcome: Outcome::StoreUnavailable },
            seen.drop_first(),
        );
    }
}

/// The password is asked for only after a username that the store lists, and
/// the session then waits with that username, trimmed.
pub proof fn lemma_password_asked_only_of_listed_user(phase: PhaseModel, event: EventModel)
    ensures
        phase !is AwaitPassword && next_phase(phase, event) is AwaitPassword ==> {
            &&& phase is AwaitUsername
            &&& event matches EventModel::LineRead { line, db: Some(bytes) }
            &&& has_user(store_of(bytes), trimmed(line))
            &&& next_phase(phase, event) == PhaseModel::AwaitPassword { username: trimmed(line) }
        },
{
}

/// Access is granted only on a password line that is right for the username
/// which the session waits with.
pub proof fn lemma_granted_only_on_right_password(phase: PhaseModel, event: EventModel)
    ensures
        phase !is Finished && next_phase(phase, event) == (PhaseModel::Finished {
            outcome: Outcome::Granted,
        }) ==> {
            &&& phase matches PhaseModel::AwaitPassword { username }
            &&& event matches EventModel::LineRead { line, db: Some(bytes) }
            &&& password_accepted(store_of(bytes), username, trimmed(line))
        },
{
}

impl Prompt {
    /// The text to print for the prompt.
    pub fn text(self) -> (text: &'static str)
        ensures
            text@ == prompt_text(self),
    {
        match self {
            Prompt::Username => "Enter username: ",
            Prompt::Password => "Enter password: ",
        }
    }
}

impl Outcome {
    /// The line to print for the outcome.
    pub fn message(self) -> (text: &'static str)
        ensures
            text@ == outcome_message(self),
    {
        match self {
            Outcome::Granted => "Access Granted!",
            Outcome::Denied => "Error! Access Denied!",
            Outcome::StoreUnavailable => "Error! Password database not found!",
        }
    }
}

impl Phase {
    /// What the caller is to do next.
    pub fn action(&self) -> (action: Action)
        ensures
            action == action_of(self@),
    {
        match self {
            Phase::Start => Action::ProbeStore,
            Phase::AwaitUsername => Action::Ask { prompt: Prompt::Username },
            Phase::AwaitPassword { .. } => Action::Ask { prompt: Prompt::Password },
            Phase::Finished { outcome } => Action::Report { outcome: *outcome },
        }
    }

    /// Takes the session one step on.
    pub fn advance(self, event: Event) -> (next: Phase)
        ensures
            next@ == next_phase(self@, event@),
    {
        match self {
            Phase::Start => match event {
                Event::StoreProbed { opened } => if opened {
                    Phase::AwaitUsername
                } else {
                    Phase::Finished { outcome: Outcome::StoreUnavailable }
                },
                Event::LineRead { .. } => Phase::Start,
            },
            Phase::AwaitUsername => match event {
                Event::LineRead { line, db } => match db {
                    Some(bytes) => {
                        let name = trim(line.as_str());
                        if is_valid_username(name, bytes.as_slice()) {
                            Phase::AwaitPassword { username: name.to_owned() }
                        } else {
                            Phase::Finished { outcome: Outcome::Denied }
                        }
                    },
                    None => Phase::Finished { outcome: Outcome::StoreUnavailable },
                },
                Event::StoreProbed { .. } => Phase::AwaitUsername,
            },
            Phase::AwaitPassword { username } => match event {
                Event::LineRead { line, db } => match db {
                    Some(bytes) => {
                        let password = trim(line.as_str());
                        if is_valid_password(username.as_str(), password, bytes.as_slice()) {
                            Phase::Finished { outcome: Outcome::Granted }
                        } else {
                            Phase::Finished { outcome: Outcome::Denied }
                        }
                    },
                    None => Phase::Finished { outcome: Outcome::StoreUnavailable },
                },
                Event::StoreProbed { .. } => Phase::AwaitPassword { username },
            },
            Phase::Finished { outcome } => Phase::Finished { outcome },
        }
    }
}

} // verus!
