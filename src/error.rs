use vstd::prelude::*;
use vstd::string::*;

verus! {

/// The field of a metadata response that was missing or of the wrong type.
#[derive(Clone, Copy, Debug, PartialEq, Eq, Structural)]
pub enum SchemaField {
    /// `query.pages` is not an object.
    Pages,
    /// `imageinfo[0].url` of the first page is not a string.
    Url,
    /// `title` of the first page is not a string.
    Title,
}

/// What went wrong, at which stage.
#[derive(Clone, Copy, Debug, PartialEq, Eq, Structural)]
pub enum ErrorKind {
    /// A request URL could not be built.
    UrlBuild,
    /// The transport failed.
    Fetch,
    /// A response body is not JSON.
    Decode,
    /// A response lacks an expected field, or holds it with the wrong type.
    Schema(SchemaField),
    /// A response names no image.
    NotFound,
    /// A file could not be created or written.
    Io,
}

/// An error: its kind and a chain of messages, outermost context first,
/// each later one the cause of the one before.
#[derive(Clone, Debug)]
pub struct Error {
    pub kind: ErrorKind,
    pub chain: Vec<String>,
}

/// The messages of a chain, separated by `": "`.
pub open spec fn joined(chain: Seq<Seq<char>>) -> Seq<char>
    decreases chain.len(),
{
    if chain.len() == 0 {
        Seq::empty()
    } else if chain.len() == 1 {
        chain[0]
    } else {
        joined(chain.drop_last()) + seq![':', ' '] + chain.last()
    }
}

impl Error {
    /// The messages of the chain as a sequence of character sequences.
    pub open spec fn messages(&self) -> Seq<Seq<char>> {
        self.chain@.map_values(|m: String| m@)
    }

    /// An error of `kind` with a single message.
    pub fn new(kind: ErrorKind, context: &str) -> (r: Error)
        ensures
            r.kind == kind,
            r.messages() == seq![context@],
    {
        let mut chain: Vec<String> = Vec::new();
        chain.push(String::from_str(context));
        let r = Error { kind, chain };
        assert(r.messages() =~= seq![context@]);
        r
    }

    /// An error of `kind` whose message `context` wraps the message of a
    /// lower-level cause.
    pub fn caused(kind: ErrorKind, context: &str, cause: String) -> (r: Error)
        ensures
            r.kind == kind,
            r.messages() == seq![context@, cause@],
    {
        let mut chain: Vec<String> = Vec::new();
        chain.push(String::from_str(context));
        chain.push(cause);
        let r = Error { kind, chain };
        assert(r.messages() =~= seq![context@, cause@]);
        r
    }

    /// The whole chain as one line, outermost context first.
    pub fn message(&self) -> (r: String)
        ensures
            r@ == joined(self.messages()),
    {
        let mut r = String::new();
        let mut i: usize = 0;
        while i < self.chain.len()
            invariant
                i <= self.chain.len(),
                r@ == joined(self.messages().take(i as int)),
            decreases self.chain.len() - i,
        {
            let ghost t = self.messages().take(i as int + 1);
            proof {
                reveal_strlit(": ");
                assert(t.drop_last() =~= self.messages().take(i as int));
                assert(t.last() == self.chain[i as int]@);
            }
            if i > 0 {
                r.append(": ");
            }
            r.append(self.chain[i].as_str());
            assert(r@ == joined(t));
            i = i + 1;
        }
        assert(self.messages().take(i as int) =~= self.messages());
        r
    }
}

} // verus!
