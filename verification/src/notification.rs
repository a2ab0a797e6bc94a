//! The script that shows a notification on the desktop.

use vstd::prelude::*;
use vstd::string::StringExecFns;
use crate::text::{chars_of, push_replaced, replaced, string_of};

verus! {

/// `text` as it stands inside a quoted string of the script: each double
/// quote gets a backslash before it.
pub open spec fn escaped(text: Seq<char>) -> Seq<char> {
    replaced(text, '"', seq!['\\', '"'])
}

/// The script that shows `body` under the title `title`, with the default
/// sound.
pub open spec fn script_for(title: Seq<char>, body: Seq<char>) -> Seq<char> {
    "display notification \""@ + escaped(body) + "\" with title \""@ + escaped(title)
        + "\" sound name \"Default\""@
}

/// The script that shows a notification with `title` and `body`.
pub fn notification_script(title: &str, body: &str) -> (script: String)
    ensures
        script@ == script_for(title@, body@),
{
    let mut quote: Vec<char> = Vec::new();
    quote.push('\\');
    quote.push('"');
    assert(quote@ =~= seq!['\\', '"']);
    let mut body_chars: Vec<char> = Vec::new();
    push_replaced(&mut body_chars, &chars_of(body), '"', &quote);
    let mut title_chars: Vec<char> = Vec::new();
    push_replaced(&mut title_chars, &chars_of(title), '"', &quote);
    let mut script = String::from_str("display notification \"");
    script.append(string_of(&body_chars).as_str());
    script.append("\" with title \"");
    script.append(string_of(&title_chars).as_str());
    script.append("\" sound name \"Default\"");
    script
}

} // verus!
