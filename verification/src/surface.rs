//! The control-surface bridge: a textual request/response protocol between
//! the embedded surface and the plugin.
//!
//! A request is a single line, a command word optionally followed by an
//! argument.  The bridge answers `getGain` with the current value rendered to
//! three decimals, stores the argument of `setGain` and reports the change as
//! an automation event, brackets a gesture with begin-edit and end-edit
//! events for `mouseOverGain` and `releaseGain`, and ignores anything else.
//! A `setGain` whose argument does not parse is a no-op with an empty
//! response, never a failure of the bridge.
//!
//! The interpreter mutates the store directly but reports host notifications
//! as returned [`HostEvent`] values: delivering them means calling back into
//! the host process, which only the surrounding plugin glue can do.

use vstd::prelude::*;
use vstd::string::StrSliceExecFns;
use vstd::string::StringExecFns;

use crate::store::ParameterStore;
use crate::store::formatted_3;
use crate::store::parsed_bits;

verus! {

/// The whitespace that separates the command word from its argument.
pub open spec fn is_space(c: char) -> bool {
    c == ' ' || c == '\t' || c == '\n' || c == '\r'
}

/// The first position at or after `i` that does not hold whitespace.
pub open spec fn skip_ws(s: Seq<char>, i: int) -> int
    decreases s.len() - i,
{
    if i < 0 || i >= s.len() || !is_space(s[i]) {
        i
    } else {
        skip_ws(s, i + 1)
    }
}

/// The first position at or after `i` that ends a run of non-whitespace.
pub open spec fn skip_token(s: Seq<char>, i: int) -> int
    decreases s.len() - i,
{
    if i < 0 || i >= s.len() || is_space(s[i]) {
        i
    } else {
        skip_token(s, i + 1)
    }
}

/// The command word: the first whitespace-delimited token, empty if the
/// message is blank.
pub open spec fn first_token(s: Seq<char>) -> Seq<char> {
    s.subrange(skip_ws(s, 0), skip_token(s, skip_ws(s, 0)))
}

/// The argument: the second whitespace-delimited token, empty if absent.
pub open spec fn second_token(s: Seq<char>) -> Seq<char> {
    let start = skip_ws(s, skip_token(s, skip_ws(s, 0)));
    s.subrange(start, skip_token(s, start))
}

/// The commands the surface may send; anything unrecognized is ignored.
#[derive(PartialEq, Eq, Structural, Clone, Copy, Debug)]
pub enum SurfaceCommand {
    GetGain,
    SetGain,
    MouseOverGain,
    ReleaseGain,
    Unknown,
}

/// A notification owed to the host after a command: a programmatic parameter
/// change to record, or the opening or closing bracket of a user gesture.
#[derive(PartialEq, Eq, Structural, Clone, Copy, Debug)]
pub enum HostEvent {
    Automated { index: i32, bits: u32 },
    BeginEdit { index: i32 },
    EndEdit { index: i32 },
}

/// Which command a first token names.
pub open spec fn command_of(t: Seq<char>) -> SurfaceCommand {
    if t == "getGain"@ {
        SurfaceCommand::GetGain
    } else if t == "setGain"@ {
        SurfaceCommand::SetGain
    } else if t == "mouseOverGain"@ {
        SurfaceCommand::MouseOverGain
    } else if t == "releaseGain"@ {
        SurfaceCommand::ReleaseGain
    } else {
        SurfaceCommand::Unknown
    }
}

/// The store contents after one command: only a `setGain` with a well-formed
/// argument changes the gain slot.
pub open spec fn step_store(s: Seq<u32>, msg: Seq<char>) -> Seq<u32> {
    if command_of(first_token(msg)) == SurfaceCommand::SetGain {
        match parsed_bits(second_token(msg)) {
            Some(bits) => s.update(0, bits),
            None => s,
        }
    } else {
        s
    }
}

/// The response to one command: only `getGain` answers with text, the
/// current gain rendered to three decimals.
pub open spec fn step_response(s: Seq<u32>, msg: Seq<char>) -> Seq<char> {
    if command_of(first_token(msg)) == SurfaceCommand::GetGain {
        formatted_3(s[0])
    } else {
        Seq::<char>::empty()
    }
}

/// The host notification owed after one command, if any: automation for a
/// successful `setGain`, the gesture brackets for `mouseOverGain` and
/// `releaseGain`, and nothing otherwise.
pub open spec fn step_event(s: Seq<u32>, msg: Seq<char>) -> Option<HostEvent> {
    match command_of(first_token(msg)) {
        SurfaceCommand::SetGain => match parsed_bits(second_token(msg)) {
            Some(bits) => Some(HostEvent::Automated { index: 0, bits }),
            None => None,
        },
        SurfaceCommand::MouseOverGain => Some(HostEvent::BeginEdit { index: 0 }),
        SurfaceCommand::ReleaseGain => Some(HostEvent::EndEdit { index: 0 }),
        _ => None,
    }
}

fn is_space_char(c: char) -> (r: bool)
    ensures
        r == is_space(c),
{
    c == ' ' || c == '\t' || c == '\n' || c == '\r'
}

fn scan_ws(s: &str, from: usize) -> (r: usize)
    requires
        from <= s@.len(),
    ensures
        from <= r <= s@.len(),
        r == skip_ws(s@, from as int),
{
    let n: usize = s.unicode_len();
    let mut i: usize = from;
    while i < n && is_space_char(s.get_char(i))
        invariant
            from <= i <= n,
            n == s@.len(),
            skip_ws(s@, from as int) == skip_ws(s@, i as int),
        decreases n - i,
    {
        i = i + 1;
    }
    i
}

fn scan_token(s: &str, from: usize) -> (r: usize)
    requires
        from <= s@.len(),
    ensures
        from <= r <= s@.len(),
        r == skip_token(s@, from as int),
{
    let n: usize = s.unicode_len();
    let mut i: usize = from;
    while i < n && !is_space_char(s.get_char(i))
        invariant
            from <= i <= n,
            n == s@.len(),
            skip_token(s@, from as int) == skip_token(s@, i as int),
        decreases n - i,
    {
        i = i + 1;
    }
    i
}

/// The command word and the argument of a message, in that order.
pub fn extract_tokens(s: &str) -> (r: (String, String))
    ensures
        r.0@ == first_token(s@),
        r.1@ == second_token(s@),
{
    let a: usize = scan_ws(s, 0);
    let b: usize = scan_token(s, a);
    let c: usize = scan_ws(s, b);
    let d: usize = scan_token(s, c);
    let command = String::from_str(s.substring_char(a, b));
    let argument = String::from_str(s.substring_char(c, d));
    (command, argument)
}

fn str_eq(a: &str, b: &str) -> (r: bool)
    ensures
        r == (a@ == b@),
{
    let na: usize = a.unicode_len();
    let nb: usize = b.unicode_len();
    if na != nb {
        return false;
    }
    let mut i: usize = 0;
    while i < na
        invariant
            i <= na,
            na == a@.len(),
            nb == b@.len(),
            na == nb,
            forall|j: int| 0 <= j < i ==> a@[j] == b@[j],
        decreases na - i,
    {
        if a.get_char(i) != b.get_char(i) {
            return false;
        }
        i = i + 1;
    }
    proof {
        assert(a@ =~= b@);
    }
    true
}

/// Which command this first token names.
pub fn classify(token: &str) -> (c: SurfaceCommand)
    ensures
        c == command_of(token@),
{
    proof {
        reveal_strlit("getGain");
        reveal_strlit("setGain");
        reveal_strlit("mouseOverGain");
        reveal_strlit("releaseGain");
    }
    if str_eq(token, "getGain") {
        SurfaceCommand::GetGain
    } else if str_eq(token, "setGain") {
        SurfaceCommand::SetGain
    } else if str_eq(token, "mouseOverGain") {
        SurfaceCommand::MouseOverGain
    } else if str_eq(token, "releaseGain") {
        SurfaceCommand::ReleaseGain
    } else {
        SurfaceCommand::Unknown
    }
}

/// Fulfils one surface request: updates the store as the command asks,
/// returns the textual response and the host notification owed, exactly as
/// the step functions describe.  A malformed or unknown request never fails;
/// it leaves the store unchanged and answers with the empty string.
pub fn handle_command(store: &mut ParameterStore, message: &str) -> (r: (String, Option<
    HostEvent,
>))
    requires
        old(store).wf(),
    ensures
        final(store).wf(),
        final(store)@ == step_store(old(store)@, message@),
        r.0@ == step_response(old(store)@, message@),
        r.1 == step_event(old(store)@, message@),
{
    let (command, argument) = extract_tokens(message);
    match classify(command.as_str()) {
        SurfaceCommand::GetGain => (store.get_parameter_text(0), None),
        SurfaceCommand::SetGain => {
            if store.set_from_text(0, argument.as_str()) {
                let bits = store.get_parameter(0);
                (String::new(), Some(HostEvent::Automated { index: 0, bits }))
            } else {
                (String::new(), None)
            }
        },
        SurfaceCommand::MouseOverGain => (String::new(), Some(HostEvent::BeginEdit { index: 0 })),
        SurfaceCommand::ReleaseGain => (String::new(), Some(HostEvent::EndEdit { index: 0 })),
        SurfaceCommand::Unknown => (String::new(), None),
    }
}

/// The value read back after a successful set is the value set, bit for bit:
/// the store holds exactly the parsed bits and a get of the gain slot
/// returns them unchanged.
pub proof fn lemma_get_after_set(s: Seq<u32>, bits: u32)
    requires
        s.len() == 1,
    ensures
        s.update(0, bits)[0] == bits,
        s.update(0, bits).len() == 1,
{
}

/// Only a set command with a well-formed argument ever yields an automation
/// event; it yields exactly one, carrying precisely the bits that were
/// stored, and every other command leaves the store untouched.
pub proof fn lemma_only_set_automates(s: Seq<u32>, msg: Seq<char>)
    ensures
        (match step_event(s, msg) {
            Some(HostEvent::Automated { index, bits }) => index == 0 && command_of(
                first_token(msg),
            ) == SurfaceCommand::SetGain && parsed_bits(second_token(msg)) == Some(bits)
                && step_store(s, msg) == s.update(0, bits),
            _ => step_store(s, msg) == s,
        }),
{
}

/// A set command whose argument does not parse is contained to that one
/// call: the store is unchanged, the response is empty, and no host
/// notification is owed.
pub proof fn lemma_malformed_set_is_noop(s: Seq<u32>, msg: Seq<char>)
    requires
        command_of(first_token(msg)) == SurfaceCommand::SetGain,
        parsed_bits(second_token(msg)) is None,
    ensures
        step_store(s, msg) == s,
        step_response(s, msg) == Seq::<char>::empty(),
        step_event(s, msg) is None,
{
}

/// A mouse-over gesture followed by a release yields exactly one begin-edit
/// and then exactly one end-edit for the gain, in that order, with no
/// automation event and no change to the store anywhere in between.
pub proof fn lemma_gesture_brackets(s: Seq<u32>, over: Seq<char>, release: Seq<char>)
    requires
        first_token(over) == "mouseOverGain"@,
        first_token(release) == "releaseGain"@,
    ensures
        step_event(s, over) == (Some(HostEvent::BeginEdit { index: 0 })),
        step_event(s, release) == (Some(HostEvent::EndEdit { index: 0 })),
        step_store(s, over) == s,
        step_store(s, release) == s,
{
    reveal_strlit("getGain");
    reveal_strlit("setGain");
    reveal_strlit("mouseOverGain");
    reveal_strlit("releaseGain");
    assert("getGain"@.len() == 7);
    assert("setGain"@.len() == 7);
    assert("mouseOverGain"@.len() == 13);
    assert("releaseGain"@.len() == 11);
}

} // verus!
