//! The underlying failure that an error wraps, held as plain values: each
//! link of the cause chain by its rendered text.

use vstd::prelude::*;

verus! {

/// One link of a cause chain: the rendered text of a failure and, where it
/// wraps a further failure, that one.
#[derive(Debug)]
pub struct Cause {
    pub message: String,
    pub source: Option<Box<Cause>>,
}

impl View for Cause {
    type V = Seq<Seq<char>>;

    /// The chain as the rendered texts of its links, this link first.
    open spec fn view(&self) -> Seq<Seq<char>> {
        self.chain()
    }
}

impl Cause {
    /// The rendered texts of the links of the chain, this link first.
    pub open spec fn chain(&self) -> Seq<Seq<char>>
        decreases self,
    {
        match self.source {
            Some(inner) => seq![self.message@] + (*inner).chain(),
            None => seq![self.message@],
        }
    }

    /// The rendered text of this link.
    pub open spec fn text(&self) -> Seq<char> {
        self.message@
    }

    /// A cause that wraps nothing further.
    pub fn new(message: &str) -> (cause: Cause)
        ensures
            cause@ == seq![message@],
    {
        Cause { message: message.to_owned(), source: None }
    }

    /// Wraps `source` under this link, in place of what it wrapped before.
    pub fn with_source(self, source: Cause) -> (cause: Cause)
        ensures
            cause@ == seq![self.text()] + source@,
    {
        Cause { message: self.message, source: Some(Box::new(source)) }
    }

    /// The rendered text of this link as an owned string.
    pub fn to_string(&self) -> (text: String)
        ensures
            text@ == self.text(),
            text@ == self@[0],
    {
        proof {
            lemma_chain_head(*self);
        }
        self.message.clone()
    }

    /// The failure that this link wraps, if it wraps one.
    pub fn get_source(&self) -> (inner: Option<&Cause>)
        ensures
            match inner {
                Some(c) => self@.len() > 1 && c@ == self@.skip(1),
                None => self@.len() == 1,
            },
    {
        match &self.source {
            Some(inner) => {
                proof {
                    lemma_chain_head(**inner);
                    assert((seq![self.message@] + inner.chain()).skip(1) =~= inner.chain());
                }
                Some(&**inner)
            },
            None => None,
        }
    }
}

impl Clone for Cause {
    fn clone(&self) -> (copy: Cause)
        ensures
            copy@ == self@,
        decreases self,
    {
        Cause {
            message: self.message.clone(),
            source: match &self.source {
                Some(inner) => Some(Box::new((&**inner).clone())),
                None => None,
            },
        }
    }
}

/// A failure that can be wrapped as a cause: it has a rendered text, and it
/// may itself wrap a further failure.
pub trait Failure: Sized {
    /// The cause chain that starts at this failure: its own rendered text,
    /// then the texts of what it wraps, link by link.
    spec fn chain_texts(&self) -> Seq<Seq<char>>;

    /// The rendered text of the failure.
    fn describe(&self) -> (text: String)
        ensures
            text@ == self.chain_texts()[0],
    ;

    /// The failure as a link of a cause chain.
    fn into_cause(self) -> (cause: Cause)
        ensures
            cause@ == self.chain_texts(),
    ;
}

impl Failure for Cause {
    open spec fn chain_texts(&self) -> Seq<Seq<char>> {
        self@
    }

    fn describe(&self) -> (text: String) {
        self.to_string()
    }

    fn into_cause(self) -> (cause: Cause) {
        self
    }
}

/// A chain is never empty, and it starts with the text of its first link.
pub proof fn lemma_chain_head(cause: Cause)
    ensures
        cause@.len() >= 1,
        cause@[0] == cause.text(),
{
}

} // verus!
