//! The library's error type: a category, a message and the chain of causes.
use vstd::prelude::*;

verus! {

/// The category of a failure.
#[derive(Clone, Copy, Debug, PartialEq, Eq, Structural)]
pub enum ErrorKind {
    /// A failure with no more precise category.
    General,
    /// A malformed URL or a string that is not UTF-8.
    InvalidInput,
    /// A native module that could not be loaded.
    LoadError,
    /// A native module without the plugin entry symbol.
    SymbolMissing,
    /// A network failure or an HTTP error status.
    TransportError,
    /// A caller-provided buffer too small for a copy.
    BufferTooSmall,
    /// A handle that designates no live object.
    NullPointer,
}

/// The numeric category code of each kind, as handed across the boundary.
pub open spec fn kind_code(kind: ErrorKind) -> u32 {
    match kind {
        ErrorKind::General => 0,
        ErrorKind::InvalidInput => 1,
        ErrorKind::LoadError => 2,
        ErrorKind::SymbolMissing => 3,
        ErrorKind::TransportError => 4,
        ErrorKind::BufferTooSmall => 5,
        ErrorKind::NullPointer => 6,
    }
}

/// A short description of each kind.
pub open spec fn kind_label(kind: ErrorKind) -> Seq<char> {
    match kind {
        ErrorKind::General => "General"@,
        ErrorKind::InvalidInput => "Invalid Input"@,
        ErrorKind::LoadError => "Load Error"@,
        ErrorKind::SymbolMissing => "Symbol Missing"@,
        ErrorKind::TransportError => "Transport Error"@,
        ErrorKind::BufferTooSmall => "Buffer Too Small"@,
        ErrorKind::NullPointer => "Null Pointer"@,
    }
}

impl ErrorKind {
    /// A short description of this kind.
    pub fn name(&self) -> (r: &'static str)
        ensures
            r@ == kind_label(*self),
    {
        match self {
            ErrorKind::General => "General",
            ErrorKind::InvalidInput => "Invalid Input",
            ErrorKind::LoadError => "Load Error",
            ErrorKind::SymbolMissing => "Symbol Missing",
            ErrorKind::TransportError => "Transport Error",
            ErrorKind::BufferTooSmall => "Buffer Too Small",
            ErrorKind::NullPointer => "Null Pointer",
        }
    }

    /// The category code of this kind.
    pub fn code(&self) -> (r: u32)
        ensures
            r == kind_code(*self),
    {
        match self {
            ErrorKind::General => 0,
            ErrorKind::InvalidInput => 1,
            ErrorKind::LoadError => 2,
            ErrorKind::SymbolMissing => 3,
            ErrorKind::TransportError => 4,
            ErrorKind::BufferTooSmall => 5,
            ErrorKind::NullPointer => 6,
        }
    }
}

/// A failure: its kind, the message it displays, and the messages of the
/// failures that caused it, nearest first.
#[derive(Debug)]
pub struct Error {
    pub kind: ErrorKind,
    pub message: String,
    pub causes: Vec<String>,
}

/// The text of each message in a sequence of strings.
pub open spec fn texts(v: Seq<String>) -> Seq<Seq<char>> {
    v.map_values(|s: String| s@)
}

impl Error {
    /// The messages of this failure and of its causes, outermost first.
    pub open spec fn chain(&self) -> Seq<Seq<char>> {
        seq![self.message@] + texts(self.causes@)
    }

    /// A failure of the given kind with no cause.
    pub fn new(kind: ErrorKind, message: &str) -> (r: Error)
        ensures
            r.kind == kind,
            r.message@ == message@,
            r.causes@.len() == 0,
    {
        Error { kind, message: message.to_owned(), causes: Vec::new() }
    }

    /// Wrap this failure in a context message; the kind is kept and the
    /// former message becomes the nearest cause.
    pub fn context(self, message: &str) -> (r: Error)
        ensures
            r.kind == self.kind,
            r.message@ == message@,
            r.chain() == seq![message@] + self.chain(),
    {
        let Error { kind, message: inner, causes } = self;
        let mut causes = causes;
        causes.insert(0, inner);
        let r = Error { kind, message: message.to_owned(), causes };
        assert(texts(r.causes@) =~= seq![self.message@] + texts(self.causes@));
        assert(r.chain() =~= seq![message@] + self.chain());
        r
    }

    /// The number of bytes of the displayed message, in UTF-8.
    pub fn message_len(&self) -> (r: usize)
        ensures
            r == message_bytes(self).len(),
    {
        self.message.as_str().as_bytes().len()
    }
}

/// The displayed message of a failure as UTF-8 bytes.
pub open spec fn message_bytes(e: &Error) -> Seq<u8> {
    vstd::utf8::encode_utf8(e.message@)
}

} // verus!
