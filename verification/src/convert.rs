//! Conversions that operators apply to items through std traits, and the
//! lines that the debugging operators record.
use vstd::prelude::*;
use std::borrow::ToOwned;
use std::fmt::Debug;
use std::fmt::Write;

verus! {

/// `ToOwned::to_owned`. What it returns depends on the type's `ToOwned`
/// impl, so nothing is claimed of it.
#[verifier::external_body]
pub(crate) fn to_owned_of<T: ToOwned>(t: &T) -> T::Owned {
    t.to_owned()
}

/// `line` is `tag`, a colon and a space, and then some text.
pub open spec fn tagged_line(tag: Seq<char>, line: Seq<char>) -> bool {
    exists|text: Seq<char>| line == tag + ": "@ + text
}

/// The log `post` after an item passed with the log at `pre`: where there
/// was an item, one more line that begins with `tag`, or no line where the
/// item's `Debug` impl reported an error; otherwise the log is unchanged.
pub open spec fn logged_after(pre: Seq<String>, post: Seq<String>, tag: Seq<char>, item: bool) -> bool {
    if item {
        ||| post == pre
        ||| post.len() == pre.len() + 1 && post.drop_last() == pre && tagged_line(tag, post.last()@)
    } else {
        post == pre
    }
}

/// `write!(text, "{:?}", item)` into an empty `String`: the item's `Debug`
/// text. Writing into a `String` fails only where the item's `Debug` impl
/// reports an error, and then no text is given. The text depends on the
/// impl, so nothing is claimed of it.
#[verifier::external_body]
fn debug_text<T: Debug>(item: &T) -> Option<String> {
    let mut text = String::new();
    match write!(text, "{:?}", item) {
        Ok(()) => Some(text),
        Err(_) => None,
    }
}

/// Records the line for `item` at the end of `log`: `tag`, a colon and a
/// space, then the item's `Debug` text. No line is recorded where the
/// item's `Debug` impl reports an error.
pub(crate) fn record_line<T: Debug>(log: &mut Vec<String>, tag: &str, item: &T)
    ensures
        logged_after(old(log)@, final(log)@, tag@, true),
{
    match debug_text(item) {
        Some(text) => {
            let ghost pre = log@;
            let mut line = String::from_str(tag);
            line.append(": ");
            line.append(text.as_str());
            assert(tagged_line(tag@, line@)) by {
                assert(line@ == tag@ + ": "@ + text@);
            }
            log.push(line);
            assert(log@.drop_last() =~= pre);
        },
        None => {},
    }
}

} // verus!
