//! Domain model for decoded http:BL responses: visitor classes, threat
//! ratings, and the error type surfaced to callers.
use vstd::prelude::*;
use vstd::string::StringExecFns;

verus! {

/// The kind of automated actor an IP address was classified as.
///
/// `SearchEngine` is a distinct code space from the threat categories: the
/// protocol encodes it as category code 0, and its `name` is looked up from
/// the score octet reinterpreted as an engine identifier.
#[derive(Debug, Clone, PartialEq)]
pub enum VisitorClass {
    SearchEngine { name: String },
    Suspicious,
    Harvester,
    CommentSpammer,
    SuspiciousHarvester,
    SuspiciousCommentSpammer,
    SuspiciousHarvesterCommentSpammer,
    NotClassified,
}

/// Mathematical model of a [`VisitorClass`]: the engine name is abstracted
/// to its character sequence.
pub enum VisitorClassView {
    SearchEngine { name: Seq<char> },
    Suspicious,
    Harvester,
    CommentSpammer,
    SuspiciousHarvester,
    SuspiciousCommentSpammer,
    SuspiciousHarvesterCommentSpammer,
    NotClassified,
}

impl View for VisitorClass {
    type V = VisitorClassView;

    open spec fn view(&self) -> VisitorClassView {
        match self {
            VisitorClass::SearchEngine { name } => VisitorClassView::SearchEngine {
                name: name@,
            },
            VisitorClass::Suspicious => VisitorClassView::Suspicious,
            VisitorClass::Harvester => VisitorClassView::Harvester,
            VisitorClass::CommentSpammer => VisitorClassView::CommentSpammer,
            VisitorClass::SuspiciousHarvester => VisitorClassView::SuspiciousHarvester,
            VisitorClass::SuspiciousCommentSpammer => VisitorClassView::SuspiciousCommentSpammer,
            VisitorClass::SuspiciousHarvesterCommentSpammer => VisitorClassView::SuspiciousHarvesterCommentSpammer,
            VisitorClass::NotClassified => VisitorClassView::NotClassified,
        }
    }
}

/// Threat severity, ordered `NotClassified < Low < Medium < High < Dangerous`,
/// derived from the score octet by fixed bucket boundaries.
#[derive(Debug, Clone, PartialEq, Eq, Structural)]
pub enum Rating {
    NotClassified,
    Low,
    Medium,
    High,
    Dangerous,
}

/// The decoded result of one blacklist lookup.
#[derive(Debug, Clone, PartialEq)]
pub struct Visitor {
    pub class: VisitorClass,
    pub threat_rating: Rating,
    pub last_activity: u16,
}

/// Mathematical model of a [`Visitor`].
pub struct VisitorView {
    pub class: VisitorClassView,
    pub threat_rating: Rating,
    pub last_activity: u16,
}

impl View for Visitor {
    type V = VisitorView;

    open spec fn view(&self) -> VisitorView {
        VisitorView {
            class: self.class@,
            threat_rating: self.threat_rating,
            last_activity: self.last_activity,
        }
    }
}

/// The four octets of the address record the blacklist answers with, under
/// their protocol meanings. The first octet is a sentinel (always 127 in a
/// valid answer) and is ignored by the decoder; the others carry the days
/// since the visitor's last activity, the threat score, and the category
/// code.
#[derive(Debug, Clone, Copy, PartialEq, Eq, Structural)]
pub struct ResponseOctets {
    pub sentinel: u8,
    pub last_activity: u8,
    pub score: u8,
    pub category: u8,
}

impl ResponseOctets {
    /// Splits a raw address record into its four named fields, in wire order.
    pub fn from_octets(octets: [u8; 4]) -> (r: ResponseOctets)
        ensures
            r.sentinel == octets[0],
            r.last_activity == octets[1],
            r.score == octets[2],
            r.category == octets[3],
    {
        ResponseOctets {
            sentinel: octets[0],
            last_activity: octets[1],
            score: octets[2],
            category: octets[3],
        }
    }
}

/// Why a lookup failed. `InvalidApiKey` is reserved for a key-validation
/// path and is not produced today, but stays a distinct case of the public
/// contract. `ResolutionFailed` wraps the resolver's failure message; the
/// protocol answers "IP not listed" as a failed resolution, so this is the
/// dominant real-world outcome.
#[derive(Debug, Clone, PartialEq)]
pub enum HoneypotBlacklistError {
    InvalidApiKey,
    ResolutionFailed(String),
}

impl HoneypotBlacklistError {
    /// A short description of the error: the resolver's own message for a
    /// failed resolution.
    pub fn description(&self) -> (r: &str)
        ensures
            self matches HoneypotBlacklistError::InvalidApiKey ==> r@ == "Invalid Api Key"@,
            self matches HoneypotBlacklistError::ResolutionFailed(m) ==> r@ == m@,
    {
        match self {
            HoneypotBlacklistError::InvalidApiKey => "Invalid Api Key",
            HoneypotBlacklistError::ResolutionFailed(m) => m.as_str(),
        }
    }

    /// The error rendered as one line, a failed resolution prefixed with
    /// `DNS error: `.
    pub fn message(&self) -> (r: String)
        ensures
            self matches HoneypotBlacklistError::InvalidApiKey ==> r@ == "Invalid Api Key"@,
            self matches HoneypotBlacklistError::ResolutionFailed(m) ==> r@ == "DNS error: "@
                + m@,
    {
        match self {
            HoneypotBlacklistError::InvalidApiKey => String::from_str("Invalid Api Key"),
            HoneypotBlacklistError::ResolutionFailed(m) => String::from_str(
                "DNS error: ",
            ).concat(m.as_str()),
        }
    }
}

/// The engine name the protocol assigns to a search-engine identifier:
/// identifiers 0 through 12 name a fixed table of engines, and every other
/// value names `NotFound`.
pub open spec fn engine_name(code: u8) -> Seq<char> {
    if code == 0 {
        "Undocumented"@
    } else if code == 1 {
        "AltaVista"@
    } else if code == 2 {
        "Ask"@
    } else if code == 3 {
        "Baidu"@
    } else if code == 4 {
        "Excite"@
    } else if code == 5 {
        "Google"@
    } else if code == 6 {
        "Looksmart"@
    } else if code == 7 {
        "Lycos"@
    } else if code == 8 {
        "MSN"@
    } else if code == 9 {
        "Yahoo"@
    } else if code == 10 {
        "Cuil"@
    } else if code == 11 {
        "InfoSeek"@
    } else if code == 12 {
        "Miscellaneous"@
    } else {
        "NotFound"@
    }
}

/// The visitor class encoded by a category code. Code 0 is a search engine,
/// whose name is looked up from the score octet reinterpreted as an engine
/// identifier; codes 1 through 6 are the six threat combinations in
/// increasing numeric order; every code from 7 up is `NotClassified`.
pub open spec fn class_of(category: u8, engine: u8) -> VisitorClassView {
    if category == 0 {
        VisitorClassView::SearchEngine { name: engine_name(engine) }
    } else if category == 1 {
        VisitorClassView::Suspicious
    } else if category == 2 {
        VisitorClassView::Harvester
    } else if category == 3 {
        VisitorClassView::CommentSpammer
    } else if category == 4 {
        VisitorClassView::SuspiciousHarvester
    } else if category == 5 {
        VisitorClassView::SuspiciousCommentSpammer
    } else if category == 6 {
        VisitorClassView::SuspiciousHarvesterCommentSpammer
    } else {
        VisitorClassView::NotClassified
    }
}

/// The severity bucket of a threat score: 0 is unclassified, 1 to 25 low,
/// 26 to 50 medium, 51 to 75 high, and 76 to 255 dangerous.
pub open spec fn rating_of(score: u8) -> Rating {
    if score == 0 {
        Rating::NotClassified
    } else if score <= 25 {
        Rating::Low
    } else if score <= 50 {
        Rating::Medium
    } else if score <= 75 {
        Rating::High
    } else {
        Rating::Dangerous
    }
}

/// The visitor record encoded by an answered address. The category code
/// picks the class; the score octet is bucketed into a rating in every case,
/// even when the class is a search engine and the octet actually carries the
/// engine identifier — the two fields are decoded independently, a known
/// quirk of the protocol kept deliberately; and the last-activity octet
/// passes through unchanged.
pub open spec fn decoded(response: ResponseOctets) -> VisitorView {
    VisitorView {
        class: class_of(response.category, response.score),
        threat_rating: rating_of(response.score),
        last_activity: response.last_activity as u16,
    }
}

/// The rating buckets are total and mutually exclusive: every score from 0
/// to 255 falls in exactly one bucket, and each bucket is hit exactly on its
/// stated boundaries.
pub proof fn lemma_rating_buckets_total_and_exclusive(score: u8)
    ensures
        (score == 0) <==> (rating_of(score) == Rating::NotClassified),
        (1 <= score && score <= 25) <==> (rating_of(score) == Rating::Low),
        (26 <= score && score <= 50) <==> (rating_of(score) == Rating::Medium),
        (51 <= score && score <= 75) <==> (rating_of(score) == Rating::High),
        (76 <= score && score <= 255) <==> (rating_of(score) == Rating::Dangerous),
{
}

/// The class mapping is total over the whole code space: code 0 yields a
/// search engine, codes 1 through 6 yield the six named threat combinations
/// in order, and every code from 7 to 255 yields `NotClassified`.
pub proof fn lemma_class_mapping_total(category: u8, engine: u8)
    ensures
        (category == 0) <==> (class_of(category, engine) matches VisitorClassView::SearchEngine { .. }),
        (category == 0) ==> (class_of(category, engine) == (VisitorClassView::SearchEngine { name: engine_name(engine) })),
        (category == 1) <==> (class_of(category, engine) == VisitorClassView::Suspicious),
        (category == 2) <==> (class_of(category, engine) == VisitorClassView::Harvester),
        (category == 3) <==> (class_of(category, engine) == VisitorClassView::CommentSpammer),
        (category == 4) <==> (class_of(category, engine) == VisitorClassView::SuspiciousHarvester),
        (category == 5) <==> (class_of(category, engine) == VisitorClassView::SuspiciousCommentSpammer),
        (category == 6) <==> (class_of(category, engine) == VisitorClassView::SuspiciousHarvesterCommentSpammer),
        (7 <= category && category <= 255) <==> (class_of(category, engine) == VisitorClassView::NotClassified),
{
}

/// Decoding is a pure function of the answered octets: any two decodes of
/// the same response agree on every field of the visitor record.
pub proof fn lemma_decode_deterministic(a: Visitor, b: Visitor, response: ResponseOctets)
    requires
        a@ == decoded(response),
        b@ == decoded(response),
    ensures
        a@ == b@,
{
}

} // verus!
