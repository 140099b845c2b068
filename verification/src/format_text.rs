//! The decisions made around a run of the formatting engine: how the
//! parser's complaints become one error text, and when a formatted text
//! counts as a change.
use vstd::prelude::*;
use vstd::string::StringExecFns;
use crate::configuration::values::same_text;

verus! {

/// The messages joined into one text, with a line feed between any two.
pub open spec fn joined_lines(messages: Seq<String>) -> Seq<char>
    decreases messages.len(),
{
    if messages.len() == 0 {
        Seq::empty()
    } else if messages.len() == 1 {
        messages[0]@
    } else {
        joined_lines(messages.drop_last()) + seq!['\n'] + messages.last()@
    }
}

/// Joins the messages of the syntax errors found in one source text into
/// the text of the one error that is handed on.
pub fn join_error_messages(messages: &Vec<String>) -> (text: String)
    ensures
        text@ == joined_lines(messages@),
{
    let mut text = String::new();
    let mut i: usize = 0;
    while i < messages.len()
        invariant
            i <= messages.len(),
            text@ == joined_lines(messages@.take(i as int)),
        decreases messages.len() - i,
    {
        proof {
            reveal_strlit("\n");
            assert(messages@.take(i + 1).drop_last() =~= messages@.take(i as int));
            assert("\n"@ =~= seq!['\n']);
        }
        if i > 0 {
            text.append("\n");
        }
        text.append(messages[i].as_str());
        proof {
            if i == 0 {
                assert(text@ =~= messages@[0]@);
            }
        }
        i += 1;
    }
    proof {
        assert(messages@.take(messages.len() as int) =~= messages@);
    }
    text
}

/// The failure that a parse ends in: none where the parser found no syntax
/// error, otherwise one text that holds every message on a line of its own.
pub fn syntax_failure(messages: &Vec<String>) -> (failure: Option<String>)
    ensures
        messages@.len() == 0 ==> failure is None,
        messages@.len() > 0 ==> failure is Some && failure->0@ == joined_lines(messages@),
{
    if messages.len() == 0 {
        None
    } else {
        Some(join_error_messages(messages))
    }
}

/// What a format run reports: nothing where the formatted text is the
/// input text, the formatted text where it differs.
pub fn changed_text(input_text: &str, output: String) -> (change: Option<String>)
    ensures
        change == if output@ == input_text@ {
            None
        } else {
            Some(output)
        },
{
    if same_text(output.as_str(), input_text) {
        None
    } else {
        Some(output)
    }
}

} // verus!
