//! Errors of the storage layer, and what of them may leave the process.
use vstd::prelude::*;

verus! {

/// The only provider error data retained by storage consumers. Provider bodies,
/// URLs and nested causes are discarded at the remote adapter boundary.
#[derive(Debug)]
pub struct RemoteStorageError {
    pub operation: &'static str,
    pub kind: String,
}

/// One error of a chain.
#[derive(Debug)]
pub enum Cause {
    /// A failure that a remote backend reported.
    Remote(RemoteStorageError),
    /// Any other error, by its text.
    Other(String),
}

/// An error and the errors behind it, outermost first.
#[derive(Debug)]
pub struct ErrorChain {
    pub outermost: Cause,
    pub behind: Vec<Cause>,
}

/// What a [`Cause`] says.
pub enum CauseView {
    Remote { operation: Seq<char>, kind: Seq<char> },
    Other(Seq<char>),
}

impl View for Cause {
    type V = CauseView;

    open spec fn view(&self) -> CauseView {
        match self {
            Cause::Remote(error) => CauseView::Remote {
                operation: error.operation@,
                kind: error.kind@,
            },
            Cause::Other(text) => CauseView::Other(text@),
        }
    }
}

impl View for ErrorChain {
    type V = Seq<CauseView>;

    open spec fn view(&self) -> Seq<CauseView> {
        seq![self.outermost@] + self.behind@.map_values(|cause: Cause| cause@)
    }
}

/// The text of one error: its operation with the kind in brackets, for a remote
/// failure.
pub open spec fn cause_text(cause: CauseView) -> Seq<char> {
    match cause {
        CauseView::Remote { operation, kind } => operation + " ("@ + kind + ")"@,
        CauseView::Other(text) => text,
    }
}

/// The kind of the first remote failure in a chain.
pub open spec fn first_remote_kind(chain: Seq<CauseView>) -> Option<Seq<char>>
    decreases chain.len(),
{
    if chain.len() == 0 {
        None
    } else {
        match chain[0] {
            CauseView::Remote { kind, .. } => Some(kind),
            CauseView::Other(_) => first_remote_kind(chain.drop_first()),
        }
    }
}

/// What is said of a failed storage operation to another process.
pub open spec fn storage_error_summary(operation: Seq<char>, kind: Option<Seq<char>>) -> Seq<char> {
    match kind {
        Some(kind) => "cache storage "@ + operation + " failed ("@ + kind + ")"@,
        None => "cache storage "@ + operation + " failed"@,
    }
}

impl RemoteStorageError {
    /// The operation, with the kind in brackets.
    pub fn to_text(&self) -> (text: String)
        ensures
            text@ == cause_text(Cause::Remote(*self)@),
    {
        let mut text = String::new();
        text.append(self.operation);
        text.append(" (");
        text.append(self.kind.as_str());
        text.append(")");
        assert(text@ =~= self.operation@ + " ("@ + self.kind@ + ")"@);
        text
    }
}

impl ErrorChain {
    /// A chain of one error with the given text.
    pub fn message(text: &str) -> (chain: ErrorChain)
        ensures
            chain@ == seq![CauseView::Other(text@)],
    {
        let chain = ErrorChain { outermost: Cause::Other(text.to_owned()), behind: Vec::new() };
        assert(chain@ =~= seq![CauseView::Other(text@)]);
        chain
    }

    /// A chain of one remote failure.
    pub fn remote(error: RemoteStorageError) -> (chain: ErrorChain)
        ensures
            chain@ == seq![Cause::Remote(error)@],
    {
        let chain = ErrorChain { outermost: Cause::Remote(error), behind: Vec::new() };
        assert(chain@ =~= seq![chain.outermost@]);
        chain
    }

    /// The text of the outermost error.
    pub fn to_text(&self) -> (text: String)
        ensures
            text@ == cause_text(self@[0]),
    {
        match &self.outermost {
            Cause::Remote(error) => error.to_text(),
            Cause::Other(text) => text.clone(),
        }
    }

    /// The kind of the first remote failure in the chain, if there is one.
    pub fn remote_kind(&self) -> (kind: Option<&String>)
        ensures
            match kind {
                Some(kind) => first_remote_kind(self@) == Some(kind@),
                None => first_remote_kind(self@) is None,
            },
    {
        if let Cause::Remote(error) = &self.outermost {
            return Some(&error.kind);
        }
        let mut next: usize = 0;
        assert(self@.drop_first() =~= self@.skip(1));
        while next < self.behind.len()
            invariant
                next <= self.behind.len(),
                self@.len() == self.behind.len() + 1,
                first_remote_kind(self@) == first_remote_kind(self@.skip(next + 1)),
            decreases self.behind.len() - next,
        {
            assert(self@.skip(next + 1)[0] == self.behind@[next as int]@);
            if let Cause::Remote(error) = &self.behind[next] {
                return Some(&error.kind);
            }
            assert(self@.skip(next + 1).drop_first() =~= self@.skip(next + 2));
            next += 1;
        }
        None
    }
}

/// Return the stable provider-operation message allowed to cross a process
/// boundary. The remote adapter has already discarded provider context.
pub fn classify_storage_error(operation: &str, error: &ErrorChain) -> (summary: String)
    ensures
        summary@ == storage_error_summary(operation@, first_remote_kind(error@)),
{
    let mut summary = String::new();
    summary.append("cache storage ");
    summary.append(operation);
    match error.remote_kind() {
        Some(kind) => {
            summary.append(" failed (");
            summary.append(kind.as_str());
            summary.append(")");
            assert(summary@ =~= "cache storage "@ + operation@ + " failed ("@ + kind@ + ")"@);
        },
        None => {
            summary.append(" failed");
            assert(summary@ =~= "cache storage "@ + operation@ + " failed"@);
        },
    }
    summary
}

/// Errors that are put in front of a remote failure, and whatever lies behind
/// it, do not change what is said of it.
pub proof fn law_summary_ignores_context(
    operation: Seq<char>,
    context: Seq<CauseView>,
    failure: CauseView,
    behind: Seq<CauseView>,
)
    requires
        failure is Remote,
        forall|i: int| 0 <= i < context.len() ==> context[i] is Other,
    ensures
        storage_error_summary(operation, first_remote_kind(context + seq![failure] + behind))
            == storage_error_summary(operation, Some(failure->Remote_kind)),
    decreases context.len(),
{
    let chain = context + seq![failure] + behind;
    if context.len() > 0 {
        assert(chain[0] == context[0]);
        assert(chain.drop_first() =~= context.drop_first() + seq![failure] + behind);
        law_summary_ignores_context(operation, context.drop_first(), failure, behind);
    } else {
        assert(chain[0] == failure);
    }
}

/// A summary is the operation and, where the chain holds a remote failure, the
/// kind of the first one, both whole, in fixed words.
pub proof fn law_summary_tells_operation_and_kind(
    operation: Seq<char>,
    chain: Seq<CauseView>,
    first: int,
)
    requires
        0 <= first < chain.len(),
        chain[first] is Remote,
        forall|i: int| 0 <= i < first ==> (#[trigger] chain[i]) is Other,
    ensures
        ({
            let summary = storage_error_summary(operation, first_remote_kind(chain));
            let kind = chain[first]->Remote_kind;
            let end = 14 + operation.len() as int;
            &&& summary.len() == end + 9 + kind.len() + 1
            &&& summary.take(14) == "cache storage "@
            &&& summary.subrange(14, end) == operation
            &&& summary.subrange(end, end + 9) == " failed ("@
            &&& summary.subrange(end + 9, end + 9 + kind.len()) == kind
            &&& summary.last() == ')'
        }),
    decreases first,
{
    if first > 0 {
        assert(chain[0] is Other);
        law_summary_tells_operation_and_kind(operation, chain.drop_first(), first - 1);
    } else {
        reveal_strlit("cache storage ");
        reveal_strlit(" failed (");
        reveal_strlit(")");
        let kind = chain[0]->Remote_kind;
        let summary = storage_error_summary(operation, first_remote_kind(chain));
        assert(summary.take(14) =~= "cache storage "@);
        let end = 14 + operation.len() as int;
        assert(summary.subrange(14, end) =~= operation);
        assert(summary.subrange(end, end + 9) =~= " failed ("@);
        assert(summary.subrange(end + 9, end + 9 + kind.len()) =~= kind);
    }
}

/// The text of a remote failure is its operation and, in brackets, its kind, both
/// whole; any other error is told as it is.
pub proof fn law_texts_are_whole(cause: CauseView)
    ensures
        match cause {
            CauseView::Remote { operation, kind } => {
                let text = cause_text(cause);
                let end = operation.len() as int;
                &&& text.len() == end + 2 + kind.len() + 1
                &&& text.take(end) == operation
                &&& text[end] == ' ' && text[end + 1] == '('
                &&& text.subrange(end + 2, end + 2 + kind.len()) == kind
                &&& text.last() == ')'
            },
            CauseView::Other(told) => cause_text(cause) == told,
        },
{
    if let CauseView::Remote { operation, kind } = cause {
        reveal_strlit(" (");
        reveal_strlit(")");
        let text = cause_text(cause);
        let end = operation.len() as int;
        assert(text.take(end) =~= operation);
        assert(text.subrange(end + 2, end + 2 + kind.len()) =~= kind);
    }
}

/// A chain is seen from its outermost error to its innermost, with every error in
/// its place and every text whole.
pub proof fn law_chains_are_seen_whole(chain: ErrorChain)
    ensures
        chain@.len() == 1 + chain.behind@.len(),
        chain@[0] == chain.outermost@,
        forall|i: int| 0 <= i < chain.behind@.len() ==> #[trigger] chain@[i + 1] == chain.behind@[i]@,
        chain.outermost matches Cause::Other(text) ==> chain@[0] == CauseView::Other(text@),
        chain.outermost matches Cause::Remote(error) ==> {
            &&& chain@[0]->Remote_operation == error.operation@
            &&& chain@[0]->Remote_kind == error.kind@
        },
        forall|i: int|
            0 <= i < chain.behind@.len() ==> match #[trigger] chain.behind@[i] {
                Cause::Other(text) => chain@[i + 1] == CauseView::Other(text@),
                Cause::Remote(error) => chain@[i + 1] == (CauseView::Remote {
                    operation: error.operation@,
                    kind: error.kind@,
                }),
            },
{
    assert forall|i: int| 0 <= i < chain.behind@.len() implies match #[trigger] chain.behind@[i] {
        Cause::Other(text) => chain@[i + 1] == CauseView::Other(text@),
        Cause::Remote(error) => chain@[i + 1] == (CauseView::Remote {
            operation: error.operation@,
            kind: error.kind@,
        }),
    } by {
        assert(chain@[i + 1] == chain.behind@[i]@);
    }
}

/// A chain without a remote failure is summed up by the operation alone.
pub proof fn law_summary_without_remote_failure(operation: Seq<char>, chain: Seq<CauseView>)
    requires
        forall|i: int| 0 <= i < chain.len() ==> chain[i] is Other,
    ensures
        storage_error_summary(operation, first_remote_kind(chain)) == "cache storage "@ + operation
            + " failed"@,
    decreases chain.len(),
{
    if chain.len() > 0 {
        assert(chain[0] is Other);
        law_summary_without_remote_failure(operation, chain.drop_first());
    }
}

} // verus!
