//! Errors of the zygote protocol: the serializable error chain that crosses
//! the process boundary, and the taxonomy that a caller sees.

use vstd::prelude::*;

verus! {

/// One entry of an error chain: what went wrong at this level and, where one
/// was captured, the backtrace that goes with it.
pub struct ErrorLink {
    pub description: Seq<char>,
    pub backtrace: Option<Seq<char>>,
}

/// Whether a backtrace was taken when an error was raised.
#[derive(Clone, Copy, Debug, PartialEq, Eq, Structural)]
pub enum BacktraceStatus {
    /// Capturing a backtrace is not supported on this platform.
    Unsupported,
    /// Capturing a backtrace was switched off.
    Disabled,
    /// A backtrace was captured.
    Captured,
}

/// A serializable error.
///
/// It carries a description, optionally the lower-level error that caused it,
/// and optionally a backtrace. Its view is the chain of entries from the
/// outermost error down to the root cause, so it never is empty.
#[derive(Debug)]
pub struct WireError {
    description: String,
    source: Option<Box<WireError>>,
    backtrace: Option<String>,
}

/// The views of a sequence of strings.
pub open spec fn texts(strings: Seq<String>) -> Seq<Seq<char>> {
    strings.map_values(|s: String| s@)
}

/// A chain entry that has a description and no backtrace.
pub open spec fn bare_link(description: Seq<char>) -> ErrorLink {
    ErrorLink { description, backtrace: None }
}

/// The chain made of the given descriptions, none with a backtrace.
pub open spec fn bare_chain(descriptions: Seq<Seq<char>>) -> Seq<ErrorLink> {
    descriptions.map_values(|d: Seq<char>| bare_link(d))
}

/// The descriptions of a chain, outermost first.
pub open spec fn descriptions_of(chain: Seq<ErrorLink>) -> Seq<Seq<char>> {
    chain.map_values(|l: ErrorLink| l.description)
}

/// The view of a string that may be absent.
pub open spec fn text_of(text: Option<String>) -> Option<Seq<char>> {
    match text {
        Some(t) => Some(t@),
        None => None,
    }
}

/// The chain below an error: that of its source, or nothing.
spec fn tail_chain(source: Option<Box<WireError>>) -> Seq<ErrorLink> {
    match source {
        Some(inner) => inner@,
        None => Seq::<ErrorLink>::empty(),
    }
}

/// The developer's rendering of one chain entry.
pub open spec fn debug_text(link: ErrorLink) -> Seq<char> {
    match link.backtrace {
        Some(trace) => link.description + "\n\n"@ + trace,
        None => link.description,
    }
}

impl View for WireError {
    type V = Seq<ErrorLink>;

    closed spec fn view(&self) -> Seq<ErrorLink> {
        self.links()
    }
}

impl WireError {
    /// The entries of this error and of its sources, outermost first.
    spec fn links(&self) -> Seq<ErrorLink>
        decreases self,
    {
        let head = ErrorLink { description: self.description@, backtrace: text_of(self.backtrace) };
        match self.source {
            Some(inner) => seq![head] + inner.links(),
            None => seq![head],
        }
    }

    /// The chain of an error has at least its own entry.
    pub proof fn lemma_chain_nonempty(&self)
        ensures
            self@.len() >= 1,
    {
    }

    /// Returns the lower-level source of this error, if any.
    pub fn source(&self) -> (inner: Option<&WireError>)
        ensures
            match inner {
                Some(s) => self@.len() >= 2 && s@ == self@.skip(1),
                None => self@.len() == 1,
            },
    {
        match &self.source {
            Some(inner) => {
                assert((seq![self@[0]] + inner@).skip(1) =~= inner@);
                Some(&**inner)
            },
            None => None,
        }
    }

    /// Get the description of this error.
    pub fn description(&self) -> (text: &str)
        ensures
            text@ == self@[0].description,
    {
        self.description.as_str()
    }

    /// Get the backtrace for this error, if any.
    pub fn backtrace(&self) -> (trace: Option<&str>)
        ensures
            match trace {
                Some(t) => self@[0].backtrace == Some(t@),
                None => self@[0].backtrace is None,
            },
    {
        match &self.backtrace {
            Some(t) => Some(t.as_str()),
            None => None,
        }
    }

    /// An error with the given description, source and backtrace.
    pub fn new(description: String, source: Option<WireError>, backtrace: Option<String>) -> (error:
        WireError)
        ensures
            error@ == seq![
                ErrorLink { description: description@, backtrace: text_of(backtrace) },
            ] + match source {
                Some(inner) => inner@,
                None => Seq::<ErrorLink>::empty(),
            },
    {
        let source = match source {
            Some(inner) => Some(Box::new(inner)),
            None => None,
        };
        WireError { description, source, backtrace }
    }

    /// An error that has only a message.
    pub fn from_str(err: &str) -> (error: WireError)
        ensures
            error@ == seq![bare_link(err@)],
    {
        WireError { description: err.to_owned(), source: None, backtrace: None }
    }

    /// An error made of the description of an error and of the descriptions
    /// of the chain of its sources, nearest first. It has no backtrace at any
    /// level.
    pub fn from_err(description: String, sources: Vec<String>) -> (error: WireError)
        ensures
            error@ == bare_chain(seq![description@] + texts(sources@)),
    {
        let ghost all = texts(sources@);
        let mut rest = sources;
        let mut inner: Option<Box<WireError>> = None;
        while rest.len() > 0
            invariant
                rest@.len() <= all.len(),
                texts(rest@) == all.take(rest@.len() as int),
                tail_chain(inner) == bare_chain(all.skip(rest@.len() as int)),
            decreases rest@.len(),
        {
            let ghost before = rest@;
            match rest.pop() {
                Some(text) => {
                    proof {
                        let n = before.len() as int;
                        assert(texts(before)[n - 1] == all.take(n)[n - 1]);
                        assert(texts(rest@) =~= all.take(n - 1)) by {
                            assert forall|i: int| 0 <= i < n - 1 implies texts(rest@)[i]
                                == all.take(n - 1)[i] by {
                                assert(texts(before)[i] == all.take(n)[i]);
                            }
                        }
                        assert(text@ == all[n - 1]);
                        assert(seq![bare_link(text@)] + bare_chain(all.skip(n)) =~= bare_chain(
                            all.skip(n - 1),
                        ));
                    }
                    inner = Some(
                        Box::new(WireError { description: text, source: inner, backtrace: None }),
                    );
                },
                None => {},
            }
        }
        proof {
            assert(all.skip(0) =~= all);
            assert(seq![bare_link(description@)] + bare_chain(all) =~= bare_chain(
                seq![description@] + all,
            ));
        }
        WireError { description, source: inner, backtrace: None }
    }

    /// The error that stands for a panic: the panic's message and, where one
    /// was captured, the backtrace taken when it was raised.
    pub fn from_panic(description: String, status: BacktraceStatus, backtrace: String) -> (error:
        WireError)
        ensures
            error@ == seq![
                ErrorLink {
                    description: description@,
                    backtrace: if status == BacktraceStatus::Captured {
                        Some(backtrace@)
                    } else {
                        None
                    },
                },
            ],
    {
        let backtrace = match status {
            BacktraceStatus::Captured => Some(backtrace),
            BacktraceStatus::Unsupported => None,
            BacktraceStatus::Disabled => None,
        };
        WireError { description, source: None, backtrace }
    }

    /// The descriptions of this error and of its sources, outermost first.
    pub fn chain(&self) -> (descriptions: Vec<String>)
        ensures
            texts(descriptions@) == descriptions_of(self@),
    {
        let mut descriptions: Vec<String> = Vec::new();
        let mut current: &WireError = self;
        let ghost mut depth: int = 0;
        proof {
            assert(self@.skip(0) =~= self@);
        }
        loop
            invariant_except_break
                0 <= depth < self@.len(),
                current@ == self@.skip(depth),
                texts(descriptions@) == descriptions_of(self@.take(depth)),
            ensures
                texts(descriptions@) == descriptions_of(self@),
            decreases self@.len() - depth,
        {
            let ghost before = descriptions@;
            descriptions.push(current.description.clone());
            proof {
                assert(current@[0] == self@[depth]);
                assert(texts(descriptions@) =~= texts(before).push(self@[depth].description));
                assert(self@.take(depth + 1) =~= self@.take(depth).push(self@[depth]));
                assert(texts(descriptions@) =~= descriptions_of(self@.take(depth + 1)));
            }
            match current.source() {
                Some(inner) => {
                    proof {
                        assert(self@.skip(depth).skip(1) =~= self@.skip(depth + 1));
                        depth = depth + 1;
                    }
                    current = inner;
                },
                None => {
                    proof {
                        assert(self@.take(depth + 1) =~= self@);
                    }
                    break ;
                },
            }
        }
        descriptions
    }

    /// What this error prints as: its description.
    pub fn to_string(&self) -> (text: String)
        ensures
            text@ == self@[0].description,
    {
        self.description.clone()
    }

    /// What this error prints as for a developer: its description, followed
    /// by an empty line and the backtrace where it has one.
    pub fn debug_string(&self) -> (text: String)
        ensures
            text@ == debug_text(self@[0]),
    {
        let mut text = self.description.clone();
        match &self.backtrace {
            Some(trace) => {
                text.append("\n\n");
                text.append(trace.as_str());
                proof {
                    assert(text@ =~= self@[0].description + "\n\n"@ + trace@);
                }
            },
            None => {},
        }
        text
    }
}

impl Clone for WireError {
    fn clone(&self) -> (copy: WireError)
        ensures
            copy@ == self@,
        decreases self,
    {
        WireError {
            description: self.description.clone(),
            source: (match &self.source {
                Some(inner) => Some(Box::new((&**inner).clone())),
                None => None,
            }),
            backtrace: (match &self.backtrace {
                Some(trace) => Some(trace.clone()),
                None => None,
            }),
        }
    }
}

/// What kind of failure an I/O operation ended in, as far as the protocol
/// tells kinds apart.
#[derive(Clone, Copy, Debug, PartialEq, Eq, Structural)]
pub enum IoKind {
    /// The stream ended before the bytes asked for had arrived.
    UnexpectedEof,
    /// The other end of the stream is gone.
    BrokenPipe,
    /// Any other failure.
    Other,
}

/// A failed I/O operation: its kind and the message of the operating system
/// or of the layer that reported it.
#[derive(Debug)]
pub struct IoFailure {
    pub kind: IoKind,
    pub message: String,
}

/// Error type of a task that is run in a zygote. Exactly one variant stands
/// for each failure.
#[derive(Debug)]
pub enum Error {
    /// Error during an IO operation
    Io(IoFailure),
    /// Error deserializing a value, a mismatch of type fingerprints included
    Decode(String),
    /// Error serializing a value
    Encode(String),
    /// Error originating in the zygote process, including task panics.
    Wire(WireError),
}

/// The model of an [`Error`].
pub enum ErrorView {
    Io(IoKind, Seq<char>),
    Decode(Seq<char>),
    Encode(Seq<char>),
    Wire(Seq<ErrorLink>),
}

impl View for Error {
    type V = ErrorView;

    open spec fn view(&self) -> ErrorView {
        match self {
            Error::Io(failure) => ErrorView::Io(failure.kind, failure.message@),
            Error::Decode(text) => ErrorView::Decode(text@),
            Error::Encode(text) => ErrorView::Encode(text@),
            Error::Wire(error) => ErrorView::Wire(error@),
        }
    }
}

/// What an error prints as: the name of its kind, then its own message.
pub open spec fn error_text(error: ErrorView) -> Seq<char> {
    match error {
        ErrorView::Io(_, message) => "io error: "@ + message,
        ErrorView::Decode(message) => "decode error: "@ + message,
        ErrorView::Encode(message) => "encode error: "@ + message,
        ErrorView::Wire(chain) => "wire error: "@ + chain[0].description,
    }
}

/// The descriptions of the chain of sources below an error, nearest first.
pub open spec fn source_texts(error: ErrorView) -> Seq<Seq<char>> {
    match error {
        ErrorView::Io(_, message) => seq![message],
        ErrorView::Decode(message) => seq![message],
        ErrorView::Encode(message) => seq![message],
        ErrorView::Wire(chain) => descriptions_of(chain),
    }
}

impl Error {
    /// What this error prints as.
    pub fn to_string(&self) -> (text: String)
        ensures
            text@ == error_text(self@),
    {
        match self {
            Error::Io(failure) => {
                let mut text = String::from_str("io error: ");
                text.append(failure.message.as_str());
                text
            },
            Error::Decode(message) => {
                let mut text = String::from_str("decode error: ");
                text.append(message.as_str());
                text
            },
            Error::Encode(message) => {
                let mut text = String::from_str("encode error: ");
                text.append(message.as_str());
                text
            },
            Error::Wire(error) => {
                let mut text = String::from_str("wire error: ");
                text.append(error.description());
                text
            },
        }
    }

    /// The descriptions of the chain of sources below this error, nearest
    /// first.
    pub fn sources(&self) -> (descriptions: Vec<String>)
        ensures
            texts(descriptions@) == source_texts(self@),
    {
        match self {
            Error::Io(failure) => {
                let mut descriptions: Vec<String> = Vec::new();
                descriptions.push(failure.message.clone());
                proof {
                    assert(texts(descriptions@) =~= seq![failure.message@]);
                }
                descriptions
            },
            Error::Decode(message) => {
                let mut descriptions: Vec<String> = Vec::new();
                descriptions.push(message.clone());
                proof {
                    assert(texts(descriptions@) =~= seq![message@]);
                }
                descriptions
            },
            Error::Encode(message) => {
                let mut descriptions: Vec<String> = Vec::new();
                descriptions.push(message.clone());
                proof {
                    assert(texts(descriptions@) =~= seq![message@]);
                }
                descriptions
            },
            Error::Wire(error) => error.chain(),
        }
    }
}

impl WireError {
    /// The serializable form of an error of this library: what it prints as,
    /// above the chain of its sources, without backtraces.
    pub fn from_error(error: &Error) -> (wire: WireError)
        ensures
            wire@ == bare_chain(seq![error_text(error@)] + source_texts(error@)),
    {
        WireError::from_err(error.to_string(), error.sources())
    }
}

impl From<WireError> for Error {
    fn from(error: WireError) -> (wrapped: Error) {
        Error::Wire(error)
    }
}

impl vstd::std_specs::convert::FromSpecImpl<WireError> for Error {
    open spec fn obeys_from_spec() -> bool {
        true
    }

    open spec fn from_spec(error: WireError) -> Error {
        Error::Wire(error)
    }
}

impl From<IoFailure> for Error {
    fn from(failure: IoFailure) -> (wrapped: Error) {
        Error::Io(failure)
    }
}

impl vstd::std_specs::convert::FromSpecImpl<IoFailure> for Error {
    open spec fn obeys_from_spec() -> bool {
        true
    }

    open spec fn from_spec(failure: IoFailure) -> Error {
        Error::Io(failure)
    }
}

} // verus!
