//! The positional arguments handed to the dialog tool.

use vstd::prelude::*;

verus! {

/// The argument list for a message and an optional title: the message
/// alone, or the message followed by the title.
pub open spec fn argument_list(message: Seq<char>, title: Option<Seq<char>>) -> Seq<Seq<char>> {
    match title {
        Some(t) => seq![message, t],
        None => seq![message],
    }
}

/// Builds the tool's arguments. The message always comes first and the
/// title, where there is one, second.
pub fn build_args(message: String, title: Option<String>) -> (args: Vec<String>)
    ensures
        args.deep_view() == argument_list(message@, title.deep_view()),
{
    let mut args: Vec<String> = Vec::new();
    args.push(message);
    match title {
        Some(t) => {
            args.push(t);
        },
        None => {},
    }
    assert(args.deep_view() =~= argument_list(message@, title.deep_view()));
    args
}

/// The argument list holds one or two entries, opens with the message,
/// and has a second entry exactly when a title is given, which is then
/// that title.
pub proof fn lemma_argument_list_shape(message: Seq<char>, title: Option<Seq<char>>)
    ensures
        argument_list(message, title).len() == (if title is Some { 2nat } else { 1nat }),
        argument_list(message, title)[0] == message,
        title is Some ==> argument_list(message, title)[1] == title->0,
{
}

} // verus!
