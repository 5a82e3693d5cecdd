//! The script injected into the webviews.
use vstd::prelude::*;

verus! {

/// Script to be injected into the webview.
#[derive(Clone, Debug)]
pub struct Script {
    text: String,
}

impl View for Script {
    type V = Seq<char>;

    closed spec fn view(&self) -> Seq<char> {
        self.text@
    }
}

impl Script {
    pub fn new(script: &str) -> (r: Script)
        ensures
            r@ == script@,
    {
        Script { text: script.to_owned() }
    }

    /// A script holding `text`.
    pub fn from_string(text: String) -> (r: Script)
        ensures
            r@ == text@,
    {
        Script { text }
    }

    /// This script followed by a line break and `script`.
    #[must_use]
    pub fn join(&self, script: &str) -> (r: Script)
        ensures
            r@ == self@ + "\n"@ + script@,
    {
        let mut buf = self.text.clone();
        buf.append("\n");
        buf.append(script);
        Script { text: buf }
    }

    /// The text of the script.
    pub fn as_str(&self) -> (r: &str)
        ensures
            r@ == self@,
    {
        self.text.as_str()
    }

    /// The text of the script as an owned string.
    pub fn to_string(&self) -> (r: String)
        ensures
            r@ == self@,
    {
        self.text.clone()
    }

    /// The script encoded in UTF-8.
    pub fn to_bytes(&self) -> (r: Vec<u8>)
        ensures
            r@ == vstd::utf8::encode_utf8(self@),
    {
        let bytes = self.text.as_str().as_bytes();
        let mut out: Vec<u8> = Vec::new();
        let mut i: usize = 0;
        while i < bytes.len()
            invariant
                i <= bytes@.len(),
                out@ == bytes@.take(i as int),
            decreases bytes@.len() - i,
        {
            out.push(bytes[i]);
            assert(bytes@.take(i as int + 1) =~= bytes@.take(i as int).push(bytes@[i as int]));
            i = i + 1;
        }
        assert(bytes@.take(bytes@.len() as int) =~= bytes@);
        out
    }

    /// The script encoded in UTF-8, each byte widened to 16 bits.
    pub fn to_wide_bytes(&self) -> (r: Vec<u16>)
        ensures
            r@.len() == vstd::utf8::encode_utf8(self@).len(),
            forall|i: int| 0 <= i < r@.len() ==> r@[i] == vstd::utf8::encode_utf8(self@)[i] as u16,
    {
        let bytes = self.text.as_str().as_bytes();
        let mut out: Vec<u16> = Vec::new();
        let mut i: usize = 0;
        while i < bytes.len()
            invariant
                i <= bytes@.len(),
                out@.len() == i,
                forall|k: int| 0 <= k < i ==> out@[k] == bytes@[k] as u16,
            decreases bytes@.len() - i,
        {
            out.push(bytes[i] as u16);
            i = i + 1;
        }
        out
    }

    /// The text of the script, taken out.
    pub fn into_string(self) -> (r: String)
        ensures
            r@ == self@,
    {
        self.text
    }
}

} // verus!
