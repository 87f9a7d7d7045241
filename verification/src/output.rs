//! Text output that can be captured, so that what a command prints can be
//! checked.
use vstd::prelude::*;

verus! {

/// Everything written so far.
pub struct OutputCapture {
    output: String,
}

impl View for OutputCapture {
    type V = Seq<char>;

    closed spec fn view(&self) -> Seq<char> {
        self.output@
    }
}

impl Default for OutputCapture {
    fn default() -> (r: Self)
        ensures
            r@ == Seq::<char>::empty(),
    {
        OutputCapture { output: String::new() }
    }
}

/// Write `s`.
pub fn output_string(capture: &mut OutputCapture, s: &str)
    ensures
        final(capture)@ == old(capture)@ + s@,
{
    capture.output.append(s);
}

/// Everything written since the last clear.
pub fn get_output(capture: &OutputCapture) -> (r: String)
    ensures
        r@ == capture@,
{
    capture.output.clone()
}

/// Forget everything written so far.
pub fn clear_output(capture: &mut OutputCapture)
    ensures
        final(capture)@ == Seq::<char>::empty(),
{
    capture.output = String::new();
}

} // verus!
