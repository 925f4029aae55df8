use vstd::prelude::*;

verus! {

/// Relies on `String::push_str`: appends the characters of `s` to `buf`.
#[verifier::external_body]
fn append(buf: &mut String, s: &str)
    ensures
        final(buf)@ == old(buf)@ + s@,
{
    buf.push_str(s)
}

/// Text waiting for the console: pieces are appended until a flush hands the
/// whole line over and starts afresh.
pub struct Logger {
    buf: String,
}

impl Logger {
    pub closed spec fn pending(&self) -> Seq<char> {
        self.buf@
    }

    /// A logger with nothing pending.
    pub fn new() -> (r: Self)
        ensures
            r.pending() == Seq::<char>::empty(),
    {
        Logger { buf: String::new() }
    }

    /// Appends `s` to the pending text.
    pub fn write_str(&mut self, s: &str)
        ensures
            final(self).pending() == old(self).pending() + s@,
    {
        append(&mut self.buf, s);
    }

    /// Hands over the pending text, for the console, and clears it.
    pub fn flush(&mut self) -> (r: String)
        ensures
            r@ == old(self).pending(),
            final(self).pending() == Seq::<char>::empty(),
    {
        let out = self.buf.clone();
        self.buf = String::new();
        out
    }
}

} // verus!
