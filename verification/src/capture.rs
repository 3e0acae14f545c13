//! Output capture: from the lines read off one output stream of a process
//! to the messages that are forwarded, and the event that reports the
//! stream closed.

use vstd::prelude::*;
use crate::servers::{
    emission_views, exit_emission, CaptureTask, CaptureView, Emission, EmissionView, EventView,
    MessageChannel, MessageView, ServerLifecycleEvent, ServerMessage,
};

verus! {

/// The channel that lines of the stream are tagged with.
pub open spec fn line_channel(is_stderr: bool) -> MessageChannel {
    if is_stderr {
        MessageChannel::Stderr
    } else {
        MessageChannel::Stdout
    }
}

/// The message that forwards one line.
pub open spec fn line_message(task: CaptureView, line: Seq<char>) -> MessageView {
    MessageView { name: task.name, contents: line, channel: line_channel(task.is_stderr) }
}

/// The lines that were read before the first read failed.
pub open spec fn lines_before_failure(reads: Seq<Result<String, String>>) -> Seq<Seq<char>>
    decreases reads.len(),
{
    if reads.len() == 0 {
        Seq::empty()
    } else {
        match reads[0] {
            Ok(line) => seq![line@] + lines_before_failure(reads.drop_first()),
            Err(_) => Seq::empty(),
        }
    }
}

/// Why the first failed read failed, if one did.
pub open spec fn first_failure(reads: Seq<Result<String, String>>) -> Option<Seq<char>>
    decreases reads.len(),
{
    if reads.len() == 0 {
        None
    } else {
        match reads[0] {
            Ok(_) => first_failure(reads.drop_first()),
            Err(cause) => Some(cause@),
        }
    }
}

/// What is logged when a read fails.
pub open spec fn read_diagnostic(task: CaptureView, cause: Seq<char>) -> Seq<char> {
    "["@ + task.name + "] Error reading "@ + (if task.is_stderr {
        "stderr"@
    } else {
        "stdout"@
    }) + " line: "@ + cause
}

/// The messages that forward `lines`, in order.
pub open spec fn line_emissions(task: CaptureView, lines: Seq<Seq<char>>) -> Seq<EmissionView> {
    Seq::new(lines.len(), |i: int| EmissionView::Message(line_message(task, lines[i])))
}

/// Everything the capture of one stream sends, in order: each line read
/// before the first failure as a message, then one exit event.
pub open spec fn capture_trace(task: CaptureView, reads: Seq<Result<String, String>>) -> Seq<
    EmissionView,
> {
    line_emissions(task, lines_before_failure(reads)).push(exit_emission(task.name))
}

/// What the capture does next.
#[derive(Debug, PartialEq, Eq)]
pub enum CaptureStep {
    /// Send the message and read on.
    Forward(ServerMessage),
    /// Log the diagnostic, if there is one, send the event, and stop.
    Finished { event: ServerLifecycleEvent, diagnostic: Option<String> },
}

/// What a whole capture sent and logged.
#[derive(Debug, PartialEq, Eq)]
pub struct Captured {
    pub emissions: Vec<Emission>,
    pub diagnostic: Option<String>,
}

/// Decides what the capture does with one read: `None` is the end of the
/// stream, `Some(Err(cause))` a failed read. A line is forwarded under the
/// run's name and the stream's channel; the end of the stream and a failed
/// read both end the capture with the exit event, and the failure is
/// logged.
pub fn capture_step(task: &CaptureTask, read: Option<Result<String, String>>) -> (step:
    CaptureStep)
    ensures
        match read {
            Some(Ok(line)) => (step matches CaptureStep::Forward(message) && message@
                == line_message(task@, line@)),
            Some(Err(cause)) => (step matches CaptureStep::Finished { event, diagnostic }
                && event@ == (EventView::Exited { name: task@.name }) && diagnostic is Some
                && diagnostic->Some_0@ == read_diagnostic(task@, cause@)),
            None => (step matches CaptureStep::Finished { event, diagnostic } && event@
                == (EventView::Exited { name: task@.name }) && diagnostic is None),
        },
{
    match read {
        Some(Ok(line)) => {
            let channel = if task.is_stderr {
                MessageChannel::Stderr
            } else {
                MessageChannel::Stdout
            };
            CaptureStep::Forward(ServerMessage { name: task.name.clone(), contents: line, channel })
        },
        Some(Err(cause)) => {
            let mut text = String::from_str("[");
            text.append(task.name.as_str());
            text.append("] Error reading ");
            if task.is_stderr {
                text.append("stderr");
            } else {
                text.append("stdout");
            }
            text.append(" line: ");
            text.append(cause.as_str());
            CaptureStep::Finished {
                event: ServerLifecycleEvent::Exited { name: task.name.clone() },
                diagnostic: Some(text),
            }
        },
        None => CaptureStep::Finished {
            event: ServerLifecycleEvent::Exited { name: task.name.clone() },
            diagnostic: None,
        },
    }
}

/// Runs the capture of one stream over everything that was read from it,
/// `reads` being the reads in order up to the end of the stream. Reading
/// stops at the first failure; whatever ended it, the capture ends with
/// exactly one exit event.
pub fn capture_output(task: &CaptureTask, reads: Vec<Result<String, String>>) -> (captured:
    Captured)
    ensures
        emission_views(captured.emissions@) == capture_trace(task@, reads@),
        match first_failure(reads@) {
            Some(cause) => captured.diagnostic is Some && captured.diagnostic->Some_0@
                == read_diagnostic(task@, cause),
            None => captured.diagnostic is None,
        },
{
    let mut emissions: Vec<Emission> = Vec::new();
    let ghost all = reads@;
    let ghost mut lines: Seq<Seq<char>> = Seq::empty();
    proof {
        assert(all.skip(0) == all);
        assert(emission_views(emissions@) =~= line_emissions(task@, lines));
    }
    for read in it: reads
        invariant
            it.seq() == all,
            emissions@.len() == lines.len(),
            emission_views(emissions@) == line_emissions(task@, lines),
            lines + lines_before_failure(all.skip(it.index())) == lines_before_failure(all),
            first_failure(all.skip(it.index())) == first_failure(all),
    {
        proof {
            assert(all.skip(it.index())[0] == read);
            assert(all.skip(it.index()).drop_first() == all.skip(it.index() + 1));
        }
        match capture_step(task, Some(read)) {
            CaptureStep::Forward(message) => {
                emissions.push(Emission::Message(message));
                proof {
                    let line = read->Ok_0@;
                    let before = lines;
                    assert(lines.push(line) + lines_before_failure(all.skip(it.index() + 1))
                        =~= lines + lines_before_failure(all.skip(it.index())));
                    lines = lines.push(line);
                    assert forall|j: int| 0 <= j < lines.len() implies emission_views(
                        emissions@,
                    )[j] == line_emissions(task@, lines)[j] by {
                        if j < before.len() {
                            assert(emission_views(emissions@)[j] == line_emissions(task@, before)[j]);
                        }
                    }
                    assert(emission_views(emissions@) =~= line_emissions(task@, lines));
                }
            },
            CaptureStep::Finished { event, diagnostic } => {
                emissions.push(Emission::Lifecycle(event));
                proof {
                    assert(lines =~= lines_before_failure(all));
                    assert(emission_views(emissions@) =~= capture_trace(task@, all));
                }
                return Captured { emissions, diagnostic };
            },
        }
    }
    emissions.push(Emission::Lifecycle(ServerLifecycleEvent::Exited { name: task.name.clone() }));
    proof {
        assert(lines =~= lines_before_failure(all));
        assert(emission_views(emissions@) =~= capture_trace(task@, all));
    }
    Captured { emissions, diagnostic: None }
}

/// Whatever was read, and however reading ended, the capture of a stream
/// sends one message for each line read before the first failure, under
/// the run's name and the stream's channel, and after them exactly one
/// exit event.
pub proof fn lemma_capture_trace_shape(task: CaptureView, reads: Seq<Result<String, String>>)
    ensures
        capture_trace(task, reads).len() == lines_before_failure(reads).len() + 1,
        forall|i: int|
            0 <= i < lines_before_failure(reads).len() ==> (#[trigger] capture_trace(task, reads)[i]
                matches EmissionView::Message(message) && message.name == task.name
                && message.channel == line_channel(task.is_stderr) && message.contents
                == lines_before_failure(reads)[i]),
        capture_trace(task, reads).last() == exit_emission(task.name),
{
}

} // verus!
