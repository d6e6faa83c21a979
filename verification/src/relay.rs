//! Relaying the output of a child: each line that the child writes is
//! passed on under the service's label and the output tag.

use vstd::prelude::*;
use vstd::string::*;
use crate::error::SupError;

verus! {

/// A line of child output as it is passed on: the label, the output tag in
/// brackets, a colon and a space, then the line as it was read.
pub open spec fn tagged_line(label: Seq<char>, line: Seq<char>) -> Seq<char> {
    label + "(O): "@ + line
}

/// The relay of one child's output, bound to the label of its service.
#[derive(Debug)]
pub struct OutputRelay {
    pub label: String,
}

impl OutputRelay {
    /// Starts the relay for the service labelled `label`. A child whose
    /// standard output is not available cannot be relayed: that is a
    /// failure of the start.
    pub fn start(label: String, stream_available: bool) -> (r: Result<OutputRelay, SupError>)
        ensures
            stream_available ==> (r matches Ok(relay) && relay.label == label),
            !stream_available ==> r == Err::<OutputRelay, SupError>(SupError::UnpackFailed),
    {
        if stream_available {
            Ok(OutputRelay { label })
        } else {
            Err(SupError::UnpackFailed)
        }
    }

    /// What to pass on for what one read of the stream brought: nothing
    /// where the read brought nothing, which is the end of the stream; else
    /// the line under the label and the output tag.
    pub fn forward(&self, line: &str) -> (r: Option<String>)
        ensures
            line@.len() == 0 ==> r is None,
            line@.len() > 0 ==> (r matches Some(text) && text@ == tagged_line(
                self.label@,
                line@,
            )),
    {
        if line.is_empty() {
            None
        } else {
            let mut text = self.label.clone();
            text.append("(O): ");
            text.append(line);
            Some(text)
        }
    }
}

} // verus!
