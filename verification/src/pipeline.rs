//! The program around the element: a pipeline, and the messages on its bus.
use vstd::prelude::*;
use vstd::string::*;

verus! {

/// The pipeline that the program runs.
pub const PIPELINE: &'static str =
    "videotestsrc ! video/x-raw,width=1280,height=640 ! videoconvert ! avenc_h264_omx ! websink is_live=true name=wsink";

/// A message on the pipeline's bus.
#[derive(Debug)]
pub enum BusMessage {
    /// The stream has ended.
    Eos,
    /// An element failed: where, how, and what it says beyond that.
    Error { source: String, error: String, debug: String },
    Other,
}

/// What is done about a message.
#[derive(Debug)]
pub struct BusReaction {
    /// A line to print.
    pub line: Option<String>,
    /// Whether the program's main loop ends.
    pub quit: bool,
}

/// Decides what is done about a message: the end of the stream ends the
/// program, and an error is reported.
pub fn react(message: BusMessage) -> (reaction: BusReaction)
    ensures
        reaction.quit == (message is Eos),
        match message {
            BusMessage::Eos => reaction.line matches Some(line) && line@ == "Bus watch  Got eos"@,
            BusMessage::Error { source, error, debug } => reaction.line matches Some(line) && line@
                == "Error from "@ + source@ + ": "@ + error@ + " ("@ + debug@ + ")"@,
            BusMessage::Other => reaction.line is None,
        },
{
    match message {
        BusMessage::Eos => BusReaction { line: Some("Bus watch  Got eos".to_owned()), quit: true },
        BusMessage::Error { source, error, debug } => {
            let mut line = "Error from ".to_owned();
            line.append(source.as_str());
            line.append(": ");
            line.append(error.as_str());
            line.append(" (");
            line.append(debug.as_str());
            line.append(")");
            BusReaction { line: Some(line), quit: false }
        },
        BusMessage::Other => BusReaction { line: None, quit: false },
    }
}

/// The end of the stream, and nothing else, ends the program; messages of no
/// interest are passed over.
pub proof fn law_only_the_end_ends_the_program(message: BusMessage, reaction: BusReaction)
    requires
        call_ensures(react, (message,), reaction),
    ensures
        reaction.quit <==> message is Eos,
        reaction.line is None <==> message is Other,
{
}

/// The line about an error holds all that the message says, in full: where it
/// happened, what it was, and the details.
pub proof fn law_errors_are_reported_in_full(
    source: String,
    error: String,
    debug: String,
    reaction: BusReaction,
)
    requires
        call_ensures(react, (BusMessage::Error { source, error, debug },), reaction),
    ensures
        reaction.line is Some,
        ({
            let line = reaction.line->0@;
            let s: int = source@.len() as int;
            let e: int = error@.len() as int;
            let d: int = debug@.len() as int;
            &&& line.len() == 16 + s + e + d
            &&& line.subrange(0, 11) == "Error from "@
            &&& line.subrange(11, 11 + s) == source@
            &&& line.subrange(13 + s, 13 + s + e) == error@
            &&& line.subrange(15 + s + e, 15 + s + e + d) == debug@
        }),
{
    reveal_strlit("Error from ");
    reveal_strlit(": ");
    reveal_strlit(" (");
    reveal_strlit(")");
    let line = reaction.line->0@;
    let s: int = source@.len() as int;
    let e: int = error@.len() as int;
    let d: int = debug@.len() as int;
    assert("Error from "@.len() == 11);
    assert(": "@.len() == 2);
    assert(" ("@.len() == 2);
    assert(")"@.len() == 1);
    assert(line.subrange(0, 11) =~= "Error from "@);
    assert(line.subrange(11, 11 + s) =~= source@);
    assert(line.subrange(13 + s, 13 + s + e) =~= error@);
    assert(line.subrange(15 + s + e, 15 + s + e + d) =~= debug@);
}

} // verus!
