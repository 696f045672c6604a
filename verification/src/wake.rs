//! One wake of the device, from boot to sleep: it looks up how the previous run
//! ended, runs, stores how that ended, and sleeps.

use std::str::Utf8Error;
use vstd::prelude::*;
use vstd::string::*;
use vstd::utf8::*;

verus! {

/// The part of the flash in which the outcome of a run is stored.
pub const NAMESPACE: &'static str = "test_ns";

/// The key under which it is stored there.
pub const PREVIOUS_KEY: &'static str = "previous";

/// How many bytes are looked up at most.
pub const PREVIOUS_LIMIT: usize = 255;

/// How long the device sleeps between two runs, in microseconds: half an hour,
/// and not twenty minutes, for a run is meant for every half hour.
pub const SLEEP_MICROS: u64 = 30 * 60 * 1_000_000;

/// `std::str::Utf8Error`: why bytes are not UTF-8.
#[verifier::external_type_specification]
#[verifier::external_body]
pub struct ExUtf8Error(Utf8Error);

/// The error that `std::str::from_utf8` gives on bytes that are not UTF-8.
pub uninterp spec fn utf8_error(bytes: Seq<u8>) -> Utf8Error;

/// What `Debug` writes of a string in which something may be escaped.
pub uninterp spec fn str_debug(s: Seq<char>) -> Seq<char>;

/// Whether the string holds printable ASCII alone, and neither a quote, double or
/// single, nor a backslash.
pub open spec fn printable(s: Seq<char>) -> bool {
    forall|i: int|
        0 <= i < s.len() ==> ' ' <= #[trigger] s[i] <= '~' && s[i] != '"' && s[i] != '\'' && s[i]
            != '\\'
}

/// What `Debug` writes of a string: the string between quotes, where nothing in
/// it could have to be escaped.
pub open spec fn debugged(s: Seq<char>) -> Seq<char> {
    if printable(s) {
        "\""@ + s + "\""@
    } else {
        str_debug(s)
    }
}

/// What `Debug` writes of a UTF-8 error.
pub uninterp spec fn utf8_error_debug(e: Utf8Error) -> Seq<char>;

/// `std::str::from_utf8` gives the string that the bytes encode, and an error
/// exactly where they encode none. Nothing is said of the error but that the
/// bytes determine it.
pub assume_specification[ std::str::from_utf8 ](v: &[u8]) -> (r: Result<&str, Utf8Error>)
    ensures
        r is Ok <==> valid_utf8(v@),
        r matches Ok(s) ==> s@ == decode_utf8(v@),
        r matches Err(e) ==> e == utf8_error(v@),
;

/// The `Debug` of `str`, under `{:?}`: a string of printable ASCII without quotes
/// and backslashes is written between quotes. Of another string nothing is said
/// but that it determines the text.
#[verifier::external_body]
fn debug_str(s: &str) -> (r: String)
    ensures
        printable(s@) ==> r@ == "\""@ + s@ + "\""@,
        !printable(s@) ==> r@ == str_debug(s@),
{
    format!("{:?}", s)
}

/// The `Debug` of `std::str::Utf8Error`, under `{:?}`: nothing is said of the
/// text but that the error determines it.
#[verifier::external_body]
fn debug_utf8_error(e: &Utf8Error) -> (r: String)
    ensures
        r@ == utf8_error_debug(*e),
{
    format!("{:?}", e)
}

/// A result as text, where the text of what it holds is given.
pub open spec fn shown(r: Result<Seq<char>, Seq<char>>) -> Seq<char> {
    match r {
        Ok(t) => "Ok("@ + t + ")"@,
        Err(t) => "Err("@ + t + ")"@,
    }
}

/// How a run ended, as text.
pub open spec fn outcome(res: Result<(), String>) -> Seq<char> {
    match res {
        Ok(_) => shown(Ok("()"@)),
        Err(e) => shown(Err(e@)),
    }
}

/// How the previous run ended, as the device tells it, where `read` is what it
/// found in the flash: without anything there, `default` takes its place.
pub open spec fn previous(read: Result<Option<Vec<u8>>, String>) -> Seq<char> {
    match read {
        Ok(Some(bytes)) => if valid_utf8(bytes@) {
            shown(Ok(debugged(decode_utf8(bytes@))))
        } else {
            shown(Err(utf8_error_debug(utf8_error(bytes@))))
        },
        _ => shown(Ok(debugged("default"@))),
    }
}

/// What has happened.
#[derive(Debug)]
pub enum WakeEvent {
    /// The flash was looked up for how the previous run ended.
    Looked(Result<Option<Vec<u8>>, String>),
    /// The run has ended.
    Ran(Result<(), String>),
    /// The outcome of the run was written to the flash, or could not be.
    Stored(Result<(), String>),
}

/// What is to be done next.
#[derive(Debug)]
pub enum WakeAction {
    /// Run, and tell that the previous run ended so.
    Run(String),
    /// Write these bytes to the flash.
    Store(Vec<u8>),
    /// Sleep for so many microseconds.
    Sleep(u64),
}

/// A result as text, where the text of what it holds is given.
pub fn show(r: Result<&str, &str>) -> (s: String)
    ensures
        r matches Ok(t) ==> s@ == shown(Ok(t@)),
        r matches Err(t) ==> s@ == shown(Err(t@)),
        r matches Ok(t) ==> s@ == "Ok("@ + t@ + ")"@,
        r matches Err(t) ==> s@ == "Err("@ + t@ + ")"@,
{
    match r {
        Ok(t) => "Ok(".to_owned().concat(t).concat(")"),
        Err(t) => "Err(".to_owned().concat(t).concat(")"),
    }
}

/// How a run ended, as text.
pub fn outcome_text(res: &Result<(), String>) -> (s: String)
    ensures
        s@ == outcome(*res),
        res is Ok ==> s@ == "Ok(())"@,
        res matches Err(e) ==> s@ == "Err("@ + e@ + ")"@,
{
    proof {
        law_outcome_says_how_it_ended(*res);
    }
    match res {
        Ok(_) => show(Ok("()")),
        Err(e) => show(Err(e.as_str())),
    }
}

/// How the previous run ended, as the device tells it, where `read` is what it
/// found in the flash.
pub fn previous_text(read: &Result<Option<Vec<u8>>, String>) -> (s: String)
    ensures
        s@ == previous(*read),
        !(read matches Ok(Some(_))) ==> s@ == "Ok(\"default\")"@,
        read matches Ok(Some(b)) ==> valid_utf8(b@) ==> s@ == (if forall|i: int|
            0 <= i < decode_utf8(b@).len() ==> ' ' <= #[trigger] decode_utf8(b@)[i] <= '~'
                && decode_utf8(b@)[i] != '"' && decode_utf8(b@)[i] != '\'' && decode_utf8(b@)[i]
                != '\\' {
            "Ok(\""@ + decode_utf8(b@) + "\")"@
        } else {
            "Ok("@ + str_debug(decode_utf8(b@)) + ")"@
        }),
        read matches Ok(Some(b)) ==> !valid_utf8(b@) ==> s@ == "Err("@ + utf8_error_debug(
            utf8_error(b@),
        ) + ")"@,
{
    proof {
        law_previous_is_told_as_it_was_found(*read);
    }
    match read {
        Ok(Some(bytes)) => match std::str::from_utf8(bytes.as_slice()) {
            Ok(text) => show(Ok(debug_str(text).as_str())),
            Err(e) => show(Err(debug_utf8_error(&e).as_str())),
        },
        _ => show(Ok(debug_str("default").as_str())),
    }
}

/// What the device does next.
pub fn wake(event: WakeEvent) -> (action: WakeAction)
    ensures
        match event {
            WakeEvent::Looked(read) => action matches WakeAction::Run(text) && text@ == previous(
                read,
            ),
            WakeEvent::Ran(res) => action matches WakeAction::Store(bytes) && bytes@
                == encode_utf8(outcome(res)),
            WakeEvent::Stored(_) => action == WakeAction::Sleep(SLEEP_MICROS),
        },
        match event {
            WakeEvent::Looked(read) => action matches WakeAction::Run(text) && (!(read matches Ok(
                Some(_),
            )) ==> text@ == "Ok(\"default\")"@),
            WakeEvent::Ran(Ok(_)) => action matches WakeAction::Store(bytes) && bytes@
                == encode_utf8("Ok(())"@),
            WakeEvent::Ran(Err(e)) => action matches WakeAction::Store(bytes) && bytes@
                == encode_utf8("Err("@ + e@ + ")"@),
            WakeEvent::Stored(_) => action == WakeAction::Sleep(1_800_000_000),
        },
{
    match event {
        WakeEvent::Looked(read) => WakeAction::Run(previous_text(&read)),
        WakeEvent::Ran(res) => WakeAction::Store(outcome_text(&res).as_str().as_bytes_vec()),
        WakeEvent::Stored(_) => WakeAction::Sleep(SLEEP_MICROS),
    }
}

/// A run that succeeded is stored as `Ok(())`, and one that failed as its error
/// behind `Err(`, whatever the error is.
pub proof fn law_outcome_says_how_it_ended(res: Result<(), String>)
    ensures
        res is Ok ==> outcome(res) == "Ok(())"@,
        res matches Err(e) ==> outcome(res) == "Err("@ + e@ + ")"@,
        res matches Err(e) ==> ({
            let text = outcome(res);
            &&& text.len() == e@.len() + 5
            &&& text.take(4) == seq!['E', 'r', 'r', '(']
            &&& text.subrange(4, text.len() - 1) == e@
            &&& text.last() == ')'
        }),
{
    reveal_strlit("Ok(");
    reveal_strlit("Err(");
    reveal_strlit(")");
    reveal_strlit("()");
    reveal_strlit("Ok(())");
    match res {
        Ok(_) => {
            assert(outcome(res) =~= "Ok(())"@);
        },
        Err(e) => {
            let text = outcome(res);
            assert(text =~= "Err("@ + e@ + ")"@);
            assert(text.take(4) =~= seq!['E', 'r', 'r', '(']);
            assert(text.subrange(4, text.len() - 1) =~= e@);
        },
    }
}

/// What was found in the flash is told as it was found: ordinary text between
/// quotes, other text as `Debug` writes it, bytes that are no text as an error.
/// Where nothing was found, `default` is told in its place.
pub proof fn law_previous_is_told_as_it_was_found(read: Result<Option<Vec<u8>>, String>)
    ensures
        !(read matches Ok(Some(_))) ==> previous(read) == "Ok(\"default\")"@,
        read matches Ok(Some(b)) ==> valid_utf8(b@) ==> previous(read) == (if forall|i: int|
            0 <= i < decode_utf8(b@).len() ==> ' ' <= #[trigger] decode_utf8(b@)[i] <= '~'
                && decode_utf8(b@)[i] != '"' && decode_utf8(b@)[i] != '\'' && decode_utf8(b@)[i]
                != '\\' {
            "Ok(\""@ + decode_utf8(b@) + "\")"@
        } else {
            "Ok("@ + str_debug(decode_utf8(b@)) + ")"@
        }),
        read matches Ok(Some(b)) ==> !valid_utf8(b@) ==> previous(read) == "Err("@
            + utf8_error_debug(utf8_error(b@)) + ")"@,
{
    reveal_strlit("Ok(");
    reveal_strlit("Ok(\"");
    reveal_strlit("Ok(\"default\")");
    reveal_strlit("default");
    reveal_strlit("\"");
    reveal_strlit(")");
    reveal_strlit("\")");
    match read {
        Ok(Some(b)) => {
            if valid_utf8(b@) {
                let s = decode_utf8(b@);
                if printable(s) {
                    assert(previous(read) =~= "Ok(\""@ + s + "\")"@);
                }
            }
        },
        _ => {
            assert(printable("default"@));
            assert(previous(read) =~= "Ok(\"default\")"@);
        },
    }
}

/// What one wake stores is what the next one tells: the bytes stored for an
/// outcome read back as the text of that outcome.
pub proof fn law_outcome_reads_back(res: Result<(), String>, bytes: Vec<u8>)
    requires
        bytes@ == encode_utf8(outcome(res)),
    ensures
        previous(Ok(Some(bytes))) == shown(Ok(debugged(outcome(res)))),
{
    encode_utf8_valid_utf8(outcome(res));
    encode_utf8_decode_utf8(outcome(res));
}

/// Two outcomes that are stored alike are the same outcome.
pub proof fn law_outcomes_are_told_apart(a: Result<(), String>, b: Result<(), String>)
    requires
        encode_utf8(outcome(a)) == encode_utf8(outcome(b)),
    ensures
        a is Ok <==> b is Ok,
        a matches Err(x) ==> b matches Err(y) && x@ == y@,
{
    encode_utf8_decode_utf8(outcome(a));
    encode_utf8_decode_utf8(outcome(b));
    reveal_strlit("Ok(");
    reveal_strlit("Err(");
    reveal_strlit(")");
    reveal_strlit("()");
    assert(outcome(a)[0] == outcome(b)[0]);
    if a is Err {
        assert(outcome(a)[0] == 'E');
        assert(b is Err);
        let x = a->Err_0@;
        let y = b->Err_0@;
        assert(outcome(a).subrange(4, outcome(a).len() - 1) =~= x);
        assert(outcome(b).subrange(4, outcome(b).len() - 1) =~= y);
    } else {
        assert(outcome(a)[0] == 'O');
    }
}

} // verus!
