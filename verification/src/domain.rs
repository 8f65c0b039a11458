//! Errors tagged by domain kind. Each kind has a tag for the rendering and a
//! prefix for reference codes, and two of them always carry a cause.

use vstd::prelude::*;
use vstd::string::StringExecFns;
use crate::cause::Cause;
use crate::cause::Failure;
use crate::cause::lemma_chain_head;
use crate::context::ContextView;
use crate::context::ErrorContext;
use crate::metadata::Pairs;
use crate::metadata::put;
use crate::severity::Severity;

verus! {

/// The domain in which a failure was detected.
#[derive(Debug, Clone, Copy, PartialEq, Eq, Structural)]
pub enum Kind {
    Network,
    DataFormat,
    Unknown,
    FileSystem,
    External,
    Protocol,
}

impl Kind {
    /// The tag under which the kind appears in rendered text.
    pub open spec fn tag(self) -> Seq<char> {
        match self {
            Kind::Network => "NETWORK"@,
            Kind::DataFormat => "DATA FORMAT"@,
            Kind::Unknown => "UNKNOWN"@,
            Kind::FileSystem => "FILE SYSTEM"@,
            Kind::External => "EXTERNAL"@,
            Kind::Protocol => "SCP"@,
        }
    }

    /// The prefix that the kind's constructors put in front of a reference
    /// suffix.
    pub open spec fn prefix(self) -> Seq<char> {
        match self {
            Kind::Network => "NET-"@,
            Kind::DataFormat => "FMT-"@,
            Kind::Unknown => "UNK-"@,
            Kind::FileSystem => "FSY-"@,
            Kind::External => "EXT-"@,
            Kind::Protocol => "SCP-"@,
        }
    }

    /// Whether an error of this kind always carries a cause.
    pub open spec fn needs_cause(self) -> bool {
        self == Kind::FileSystem || self == Kind::External
    }

    /// The tag as a string slice.
    pub fn tag_str(&self) -> (tag: &'static str)
        ensures
            tag@ == self.tag(),
    {
        match self {
            Kind::Network => "NETWORK",
            Kind::DataFormat => "DATA FORMAT",
            Kind::Unknown => "UNKNOWN",
            Kind::FileSystem => "FILE SYSTEM",
            Kind::External => "EXTERNAL",
            Kind::Protocol => "SCP",
        }
    }

    /// The reference prefix as a string slice.
    pub fn prefix_str(&self) -> (prefix: &'static str)
        ensures
            prefix@ == self.prefix(),
    {
        match self {
            Kind::Network => "NET-",
            Kind::DataFormat => "FMT-",
            Kind::Unknown => "UNK-",
            Kind::FileSystem => "FSY-",
            Kind::External => "EXT-",
            Kind::Protocol => "SCP-",
        }
    }

    /// Whether an error of this kind always carries a cause.
    pub fn requires_cause(&self) -> (needed: bool)
        ensures
            needed == self.needs_cause(),
    {
        match self {
            Kind::FileSystem => true,
            Kind::External => true,
            _ => false,
        }
    }
}

/// What a [`DomainError`] holds, as plain values. The cause is the chain of
/// the rendered texts of its links, the immediate cause first.
#[verifier::ext_equal]
pub struct DomainErrorView {
    pub kind: Kind,
    pub context: ContextView,
    pub source: Option<Seq<Seq<char>>>,
}

impl DomainErrorView {
    /// What a constructor builds: the kind's prefix in front of the suffix,
    /// empty metadata, and the cause as given.
    pub open spec fn fresh(
        kind: Kind,
        severity: Severity,
        suffix: Seq<char>,
        description: Seq<char>,
        source: Option<Seq<Seq<char>>>,
    ) -> DomainErrorView {
        DomainErrorView {
            kind,
            context: ContextView {
                reference: kind.prefix() + suffix,
                severity,
                description,
                metadata: Map::empty(),
            },
            source,
        }
    }

    /// The rendering without the cause: `[<kind tag>] <context rendering>`.
    pub open spec fn head(self) -> Seq<char> {
        "["@ + self.kind.tag() + "] "@ + self.context.render()
    }

    /// The canonical rendering: the head, followed by ` | Source: ` and the
    /// text of the immediate cause where there is one.
    pub open spec fn render(self) -> Seq<char> {
        match self.source {
            Some(chain) => self.head() + " | Source: "@ + chain[0],
            None => self.head(),
        }
    }

    /// The cause chain that starts at this error itself: its own rendering,
    /// then the chain of what it wraps.
    pub open spec fn chain(self) -> Seq<Seq<char>> {
        match self.source {
            Some(chain) => seq![self.render()] + chain,
            None => seq![self.render()],
        }
    }
}

/// An error of one domain kind. File-system and external errors hold their
/// cause directly, so none exists without one; the other kinds may or may
/// not wrap a cause.
#[derive(Debug)]
#[allow(inconsistent_fields)]
pub enum DomainError {
    Network { context: ErrorContext, source: Option<Cause> },
    DataFormat { context: ErrorContext, source: Option<Cause> },
    Unknown { context: ErrorContext, source: Option<Cause> },
    FileSystem { context: ErrorContext, source: Cause },
    External { context: ErrorContext, source: Cause },
    Protocol { context: ErrorContext, source: Option<Cause> },
}

/// The chain of an optional cause.
pub open spec fn optional_chain(source: Option<Cause>) -> Option<Seq<Seq<char>>> {
    match source {
        Some(cause) => Some(cause@),
        None => None,
    }
}

impl View for DomainError {
    type V = DomainErrorView;

    open spec fn view(&self) -> DomainErrorView {
        match *self {
            DomainError::Network { context, source } => DomainErrorView {
                kind: Kind::Network,
                context: context@,
                source: optional_chain(source),
            },
            DomainError::DataFormat { context, source } => DomainErrorView {
                kind: Kind::DataFormat,
                context: context@,
                source: optional_chain(source),
            },
            DomainError::Unknown { context, source } => DomainErrorView {
                kind: Kind::Unknown,
                context: context@,
                source: optional_chain(source),
            },
            DomainError::FileSystem { context, source } => DomainErrorView {
                kind: Kind::FileSystem,
                context: context@,
                source: Some(source@),
            },
            DomainError::External { context, source } => DomainErrorView {
                kind: Kind::External,
                context: context@,
                source: Some(source@),
            },
            DomainError::Protocol { context, source } => DomainErrorView {
                kind: Kind::Protocol,
                context: context@,
                source: optional_chain(source),
            },
        }
    }
}

/// The context that a constructor of `kind` builds from a reference suffix.
fn prefixed_context(kind: Kind, severity: Severity, suffix: &str, description: &str) -> (context:
    ErrorContext)
    ensures
        context@ == (ContextView {
            reference: kind.prefix() + suffix@,
            severity,
            description: description@,
            metadata: Map::empty(),
        }),
        context.metadata.pairs() == Pairs::empty(),
{
    let mut reference = String::from_str(kind.prefix_str());
    reference.append(suffix);
    ErrorContext::new(reference.as_str(), severity, description)
}

impl DomainError {
    /// The entries of the metadata, in order.
    pub open spec fn metadata_pairs(&self) -> Pairs {
        match *self {
            DomainError::Network { context, .. } => context.metadata.pairs(),
            DomainError::DataFormat { context, .. } => context.metadata.pairs(),
            DomainError::Unknown { context, .. } => context.metadata.pairs(),
            DomainError::FileSystem { context, .. } => context.metadata.pairs(),
            DomainError::External { context, .. } => context.metadata.pairs(),
            DomainError::Protocol { context, .. } => context.metadata.pairs(),
        }
    }

    /// A network error of severity `Error`, without a cause.
    pub fn network(suffix: &str, description: &str) -> (error: DomainError)
        ensures
            error@ == DomainErrorView::fresh(
                Kind::Network,
                Severity::Error,
                suffix@,
                description@,
                None,
            ),
            error.metadata_pairs() == Pairs::empty(),
    {
        DomainError::Network {
            context: prefixed_context(Kind::Network, Severity::Error, suffix, description),
            source: None,
        }
    }

    /// A network error of severity `Error` that wraps `source`.
    pub fn network_with_source(suffix: &str, description: &str, source: Cause) -> (error:
        DomainError)
        ensures
            error@ == DomainErrorView::fresh(
                Kind::Network,
                Severity::Error,
                suffix@,
                description@,
                Some(source@),
            ),
            error.metadata_pairs() == Pairs::empty(),
    {
        DomainError::Network {
            context: prefixed_context(Kind::Network, Severity::Error, suffix, description),
            source: Some(source),
        }
    }

    /// A data-format error of severity `Error`, without a cause.
    pub fn data_format(suffix: &str, description: &str) -> (error: DomainError)
        ensures
            error@ == DomainErrorView::fresh(
                Kind::DataFormat,
                Severity::Error,
                suffix@,
                description@,
                None,
            ),
            error.metadata_pairs() == Pairs::empty(),
    {
        DomainError::DataFormat {
            context: prefixed_context(Kind::DataFormat, Severity::Error, suffix, description),
            source: None,
        }
    }

    /// A data-format error of severity `Error` that wraps `source`.
    pub fn data_format_with_source(suffix: &str, description: &str, source: Cause) -> (error:
        DomainError)
        ensures
            error@ == DomainErrorView::fresh(
                Kind::DataFormat,
                Severity::Error,
                suffix@,
                description@,
                Some(source@),
            ),
            error.metadata_pairs() == Pairs::empty(),
    {
        DomainError::DataFormat {
            context: prefixed_context(Kind::DataFormat, Severity::Error, suffix, description),
            source: Some(source),
        }
    }

    /// An error of a domain that is not known yet, of the severity that the
    /// caller chooses, without a cause.
    pub fn unknown(severity: Severity, suffix: &str, description: &str) -> (error: DomainError)
        ensures
            error@ == DomainErrorView::fresh(Kind::Unknown, severity, suffix@, description@, None),
            error.metadata_pairs() == Pairs::empty(),
    {
        DomainError::Unknown {
            context: prefixed_context(Kind::Unknown, severity, suffix, description),
            source: None,
        }
    }

    /// An error of a domain that is not known yet, of the severity that the
    /// caller chooses, that wraps `source`.
    pub fn unknown_with_source(
        severity: Severity,
        suffix: &str,
        description: &str,
        source: Cause,
    ) -> (error: DomainError)
        ensures
            error@ == DomainErrorView::fresh(
                Kind::Unknown,
                severity,
                suffix@,
                description@,
                Some(source@),
            ),
            error.metadata_pairs() == Pairs::empty(),
    {
        DomainError::Unknown {
            context: prefixed_context(Kind::Unknown, severity, suffix, description),
            source: Some(source),
        }
    }

    /// A file-system error of severity `Error`. It always wraps a cause.
    pub fn file_system(suffix: &str, description: &str, source: Cause) -> (error: DomainError)
        ensures
            error@ == DomainErrorView::fresh(
                Kind::FileSystem,
                Severity::Error,
                suffix@,
                description@,
                Some(source@),
            ),
            error.metadata_pairs() == Pairs::empty(),
    {
        DomainError::FileSystem {
            context: prefixed_context(Kind::FileSystem, Severity::Error, suffix, description),
            source,
        }
    }

    /// An error of an external collaborator, of severity `Error`. It always
    /// wraps a cause.
    pub fn external(suffix: &str, description: &str, source: Cause) -> (error: DomainError)
        ensures
            error@ == DomainErrorView::fresh(
                Kind::External,
                Severity::Error,
                suffix@,
                description@,
                Some(source@),
            ),
            error.metadata_pairs() == Pairs::empty(),
    {
        DomainError::External {
            context: prefixed_context(Kind::External, Severity::Error, suffix, description),
            source,
        }
    }

    /// A protocol error of severity `Error`, without a cause.
    pub fn protocol(suffix: &str, description: &str) -> (error: DomainError)
        ensures
            error@ == DomainErrorView::fresh(
                Kind::Protocol,
                Severity::Error,
                suffix@,
                description@,
                None,
            ),
            error.metadata_pairs() == Pairs::empty(),
    {
        DomainError::Protocol {
            context: prefixed_context(Kind::Protocol, Severity::Error, suffix, description),
            source: None,
        }
    }

    /// A protocol error of severity `Error` that wraps `source`.
    pub fn protocol_with_source(suffix: &str, description: &str, source: Cause) -> (error:
        DomainError)
        ensures
            error@ == DomainErrorView::fresh(
                Kind::Protocol,
                Severity::Error,
                suffix@,
                description@,
                Some(source@),
            ),
            error.metadata_pairs() == Pairs::empty(),
    {
        DomainError::Protocol {
            context: prefixed_context(Kind::Protocol, Severity::Error, suffix, description),
            source: Some(source),
        }
    }

    /// The domain kind.
    pub fn kind(&self) -> (kind: Kind)
        ensures
            kind == self@.kind,
    {
        match self {
            DomainError::Network { .. } => Kind::Network,
            DomainError::DataFormat { .. } => Kind::DataFormat,
            DomainError::Unknown { .. } => Kind::Unknown,
            DomainError::FileSystem { .. } => Kind::FileSystem,
            DomainError::External { .. } => Kind::External,
            DomainError::Protocol { .. } => Kind::Protocol,
        }
    }

    /// The context that the error owns.
    pub fn context(&self) -> (context: &ErrorContext)
        ensures
            context@ == self@.context,
            context.metadata.pairs() == self.metadata_pairs(),
    {
        match self {
            DomainError::Network { context, .. } => context,
            DomainError::DataFormat { context, .. } => context,
            DomainError::Unknown { context, .. } => context,
            DomainError::FileSystem { context, .. } => context,
            DomainError::External { context, .. } => context,
            DomainError::Protocol { context, .. } => context,
        }
    }

    /// The wrapped cause, if there is one. File-system and external errors
    /// always have one.
    pub fn get_source(&self) -> (source: Option<&Cause>)
        ensures
            match source {
                Some(cause) => self@.source == Some(cause@),
                None => self@.source is None && !self@.kind.needs_cause(),
            },
    {
        match self {
            DomainError::Network { source, .. } => source.as_ref(),
            DomainError::DataFormat { source, .. } => source.as_ref(),
            DomainError::Unknown { source, .. } => source.as_ref(),
            DomainError::FileSystem { source, .. } => Some(source),
            DomainError::External { source, .. } => Some(source),
            DomainError::Protocol { source, .. } => source.as_ref(),
        }
    }

    /// Sets the metadata key `key` to `value`. A key that is present takes
    /// the new value; kind, reference, severity, description and cause stay.
    pub fn insert_metadata(self, key: &str, value: &str) -> (error: DomainError)
        ensures
            error@ == (DomainErrorView {
                context: ContextView {
                    metadata: self@.context.metadata.insert(key@, value@),
                    ..self@.context
                },
                ..self@
            }),
            error.metadata_pairs() == put(self.metadata_pairs(), key@, value@),
            error@.render() == self@.render(),
    {
        match self {
            DomainError::Network { context, source } => DomainError::Network {
                context: with_entry(context, key, value),
                source,
            },
            DomainError::DataFormat { context, source } => DomainError::DataFormat {
                context: with_entry(context, key, value),
                source,
            },
            DomainError::Unknown { context, source } => DomainError::Unknown {
                context: with_entry(context, key, value),
                source,
            },
            DomainError::FileSystem { context, source } => DomainError::FileSystem {
                context: with_entry(context, key, value),
                source,
            },
            DomainError::External { context, source } => DomainError::External {
                context: with_entry(context, key, value),
                source,
            },
            DomainError::Protocol { context, source } => DomainError::Protocol {
                context: with_entry(context, key, value),
                source,
            },
        }
    }

    /// The canonical rendering.
    pub fn to_string(&self) -> (text: String)
        ensures
            text@ == self@.render(),
    {
        let mut text = String::from_str("[");
        text.append(self.kind().tag_str());
        text.append("] ");
        text.append(self.context().to_string().as_str());
        match self.get_source() {
            Some(cause) => {
                let cause_text = cause.to_string();
                text.append(" | Source: ");
                text.append(cause_text.as_str());
            },
            None => {},
        }
        text
    }

}

impl Failure for DomainError {
    open spec fn chain_texts(&self) -> Seq<Seq<char>> {
        self@.chain()
    }

    /// The canonical rendering.
    fn describe(&self) -> (text: String) {
        self.to_string()
    }

    /// This error as a link of a cause chain: its text is the canonical
    /// rendering, and it wraps what the error wrapped.
    fn into_cause(self) -> (cause: Cause) {
        let link = Cause::new(self.to_string().as_str());
        match self {
            DomainError::Network { source: Some(inner), .. } => link.with_source(inner),
            DomainError::DataFormat { source: Some(inner), .. } => link.with_source(inner),
            DomainError::Unknown { source: Some(inner), .. } => link.with_source(inner),
            DomainError::FileSystem { source, .. } => link.with_source(source),
            DomainError::External { source, .. } => link.with_source(source),
            DomainError::Protocol { source: Some(inner), .. } => link.with_source(inner),
            _ => link,
        }
    }
}

/// The context with the metadata key `key` set to `value`.
fn with_entry(context: ErrorContext, key: &str, value: &str) -> (after: ErrorContext)
    ensures
        after@ == (ContextView { metadata: context@.metadata.insert(key@, value@), ..context@ }),
        after.metadata.pairs() == put(context.metadata.pairs(), key@, value@),
{
    let mut metadata = context.metadata;
    metadata.insert(key, value);
    ErrorContext {
        reference: context.reference,
        severity: context.severity,
        description: context.description,
        metadata,
    }
}

/// Without a cause, what a constructor builds renders exactly as
/// `[<kind tag>] <severity tag> | Ref: <prefix><suffix> | <description>`.
pub proof fn lemma_render_without_cause(
    kind: Kind,
    severity: Severity,
    suffix: Seq<char>,
    description: Seq<char>,
)
    ensures
        DomainErrorView::fresh(kind, severity, suffix, description, None).render() == "["@
            + kind.tag() + "] "@ + severity.tag() + " | Ref: "@ + kind.prefix() + suffix + " | "@
            + description,
{
    let built = DomainErrorView::fresh(kind, severity, suffix, description, None);
    assert(built.render() =~= "["@ + kind.tag() + "] "@ + severity.tag() + " | Ref: "@
        + kind.prefix() + suffix + " | "@ + description);
}

/// With a cause, the rendering is the head followed by ` | Source: ` and the
/// text of the immediate cause, so it ends with them.
pub proof fn lemma_render_ends_with_source(error: DomainErrorView, chain: Seq<Seq<char>>)
    requires
        error.source == Some(chain),
    ensures
        error.render() == error.head() + (" | Source: "@ + chain[0]),
        (" | Source: "@ + chain[0]).is_suffix_of(error.render()),
{
    let tail = " | Source: "@ + chain[0];
    assert(error.render() =~= error.head() + tail);
    assert(tail =~= (error.head() + tail).subrange(
        error.head().len() as int,
        (error.head() + tail).len() as int,
    ));
}

/// The cause that an error hands out is the one whose text its rendering
/// ends with.
pub proof fn lemma_source_is_rendered(error: DomainError, cause: Cause)
    requires
        error@.source == Some(cause@),
    ensures
        (" | Source: "@ + cause.text()).is_suffix_of(error@.render()),
{
    lemma_chain_head(cause);
    lemma_render_ends_with_source(error@, cause@);
}

/// No file-system or external error is without a cause.
pub proof fn lemma_cause_required(error: DomainError)
    requires
        error@.kind.needs_cause(),
    ensures
        error@.source is Some,
        error is FileSystem || error is External,
{
}

/// The kinds that may be without a cause are exactly the other four.
pub proof fn lemma_cause_optional(error: DomainError)
    requires
        error@.source is None,
    ensures
        error@.kind == Kind::Network || error@.kind == Kind::DataFormat || error@.kind
            == Kind::Unknown || error@.kind == Kind::Protocol,
{
}

/// Metadata is no part of the rendering: two errors that differ in their
/// metadata alone render alike.
pub proof fn lemma_render_ignores_metadata(
    error: DomainErrorView,
    metadata: Map<Seq<char>, Seq<char>>,
)
    ensures
        (DomainErrorView { context: ContextView { metadata, ..error.context }, ..error }).render()
            == error.render(),
{
}

} // verus!
