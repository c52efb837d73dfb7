//! The desktop shell's own data: the requests its page sends and the name of
//! the log file it writes when restarted with logging.

use vstd::prelude::*;
use crate::text::{
    concat3, law_replace_keeps_char_out, law_replace_removes_char, replace_all, replace_str,
};

verus! {

/// A request from the page.
#[derive(Clone, Debug)]
pub struct RequestBody {
    pub id: i32,
    pub name: String,
}

/// A command from the page.
#[derive(Clone, Debug)]
pub enum Cmd {
    MyCustomCommand { argument: String },
}

/// A timestamp made fit for a file name: `-` and blanks become `_`, `.` and
/// `:` are dropped.
pub open spec fn file_safe_timestamp(t: Seq<char>) -> Seq<char> {
    replace_all(
        replace_all(replace_all(replace_all(t, "-"@, "_"@), " "@, "_"@), "."@, Seq::empty()),
        ":"@,
        Seq::empty(),
    )
}

/// The name of the log file written when the application is restarted with
/// logging at the time `timestamp`.
pub fn log_file_name(timestamp: &str) -> (r: String)
    ensures
        r@ == "aiarena-client-gui"@ + file_safe_timestamp(timestamp@) + ".log"@,
{
    proof {
        reveal_strlit("-");
        reveal_strlit(" ");
        reveal_strlit(".");
        reveal_strlit(":");
        reveal_strlit("");
        assert(""@ =~= Seq::<char>::empty());
    }
    let a = replace_str(timestamp, "-", "_");
    let b = replace_str(a.as_str(), " ", "_");
    let c = replace_str(b.as_str(), ".", "");
    let d = replace_str(c.as_str(), ":", "");
    concat3("aiarena-client-gui", d.as_str(), ".log")
}

/// Law: the timestamp part of a log file name holds no `-`, blank, `.` or
/// `:`.
pub proof fn law_timestamp_is_file_safe(t: Seq<char>)
    ensures
        !file_safe_timestamp(t).contains('-'),
        !file_safe_timestamp(t).contains(' '),
        !file_safe_timestamp(t).contains('.'),
        !file_safe_timestamp(t).contains(':'),
{
    reveal_strlit("-");
    reveal_strlit(" ");
    reveal_strlit(".");
    reveal_strlit(":");
    reveal_strlit("_");
    assert("-"@ =~= seq!['-']);
    assert(" "@ =~= seq![' ']);
    assert("."@ =~= seq!['.']);
    assert(":"@ =~= seq![':']);
    assert("_"@ =~= seq!['_']);
    let e = Seq::<char>::empty();
    let u = seq!['_'];
    assert(!u.contains('-') && !u.contains(' ') && !u.contains('.') && !u.contains(':'));
    assert(!e.contains('-') && !e.contains(' ') && !e.contains('.') && !e.contains(':'));
    let a = replace_all(t, seq!['-'], u);
    law_replace_removes_char(t, '-', u);
    let b = replace_all(a, seq![' '], u);
    law_replace_removes_char(a, ' ', u);
    law_replace_keeps_char_out(a, seq![' '], u, '-');
    let c = replace_all(b, seq!['.'], e);
    law_replace_removes_char(b, '.', e);
    law_replace_keeps_char_out(b, seq!['.'], e, '-');
    law_replace_keeps_char_out(b, seq!['.'], e, ' ');
    law_replace_removes_char(c, ':', e);
    law_replace_keeps_char_out(c, seq![':'], e, '-');
    law_replace_keeps_char_out(c, seq![':'], e, ' ');
    law_replace_keeps_char_out(c, seq![':'], e, '.');
}

} // verus!
