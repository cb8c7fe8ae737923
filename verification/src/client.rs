//! The http:BL client: holds the API key, builds query names, and decodes
//! the resolver's outcome into a visitor record.
use crate::model::HoneypotBlacklistError;
use crate::model::Rating;
use crate::model::ResponseOctets;
use crate::model::Visitor;
use crate::model::VisitorClass;
use crate::model::class_of;
use crate::model::decoded;
use crate::model::engine_name;
use crate::model::rating_of;
use crate::query::push_decimal;
use crate::query::query_name;
use vstd::prelude::*;
use vstd::string::StringExecFns;

verus! {

/// A client for the http:BL service, read-only after construction: it holds
/// nothing but the API key that every query name embeds.
pub struct HoneypotBlacklist {
    key: String,
}

impl View for HoneypotBlacklist {
    type V = Seq<char>;

    closed spec fn view(&self) -> Seq<char> {
        self.key@
    }
}

impl HoneypotBlacklist {
    /// Creates a new client that will query under the given API key.
    pub fn new(key: String) -> (r: HoneypotBlacklist)
        ensures
            r@ == key@,
    {
        HoneypotBlacklist { key }
    }

    /// Builds the query name for visitor IP `a.b.c.d`: the key, the four
    /// octets reversed, and the blacklist zone, joined with dots.
    pub fn build_query_name(&self, a: u8, b: u8, c: u8, d: u8) -> (r: String)
        ensures
            r@ == query_name(self@, a, b, c, d),
    {
        let mut out = String::from_str(self.key.as_str());
        out.append(".");
        push_decimal(&mut out, d);
        out.append(".");
        push_decimal(&mut out, c);
        out.append(".");
        push_decimal(&mut out, b);
        out.append(".");
        push_decimal(&mut out, a);
        out.append(".");
        out.append("dnsbl.httpbl.org");
        proof {
            assert(out@ =~= query_name(self@, a, b, c, d));
        }
        out
    }

    /// Turns the resolver's outcome for a query name into the caller's
    /// result: an answered address decodes to a visitor record, and a failed
    /// resolution — how the service answers "IP not listed", as well as any
    /// genuine DNS failure — surfaces unchanged as `ResolutionFailed`.
    pub fn lookup(&self, resolution: Result<ResponseOctets, String>) -> (r: Result<
        Visitor,
        HoneypotBlacklistError,
    >)
        ensures
            resolution matches Ok(response) ==> r matches Ok(v) && v@ == decoded(response),
            resolution matches Err(cause) ==> r matches Err(e) && e matches HoneypotBlacklistError::ResolutionFailed(m) && m@ == cause@,
    {
        match resolution {
            Ok(response) => Ok(self.decode(response)),
            Err(cause) => Err(HoneypotBlacklistError::ResolutionFailed(cause)),
        }
    }

    /// Decodes an answered address record into a visitor record: the
    /// category octet picks the class, the score octet is bucketed into a
    /// rating, and the last-activity octet passes through unchanged.
    pub fn decode(&self, response: ResponseOctets) -> (v: Visitor)
        ensures
            v@ == decoded(response),
    {
        Visitor {
            class: self.get_visitor_class(response.category, response.score),
            threat_rating: self.get_threat_rating(response.score),
            last_activity: self.get_last_activity(response.last_activity),
        }
    }

    /// Maps a category code to the visitor class: 0 is a search engine
    /// named by the engine octet, 1 through 6 are the six threat
    /// combinations in order, and everything else is unclassified.
    pub fn get_visitor_class(&self, class: u8, engine: u8) -> (r: VisitorClass)
        ensures
            r@ == class_of(class, engine),
    {
        match class {
            0 => VisitorClass::SearchEngine { name: self.get_search_engine(engine) },
            1 => VisitorClass::Suspicious,
            2 => VisitorClass::Harvester,
            3 => VisitorClass::CommentSpammer,
            4 => VisitorClass::SuspiciousHarvester,
            5 => VisitorClass::SuspiciousCommentSpammer,
            6 => VisitorClass::SuspiciousHarvesterCommentSpammer,
            _ => VisitorClass::NotClassified,
        }
    }

    /// Buckets a threat score into its severity rating.
    pub fn get_threat_rating(&self, value: u8) -> (r: Rating)
        ensures
            r == rating_of(value),
    {
        if value == 0 {
            Rating::NotClassified
        } else if value <= 25 {
            Rating::Low
        } else if value <= 50 {
            Rating::Medium
        } else if value <= 75 {
            Rating::High
        } else {
            Rating::Dangerous
        }
    }

    /// Passes the last-activity octet through: the number of days since the
    /// visitor was last seen, 0 to 255.
    pub fn get_last_activity(&self, value: u8) -> (r: u16)
        ensures
            r == value as u16,
    {
        value as u16
    }

    /// Names the search engine behind an engine identifier, from the
    /// protocol's fixed table; identifiers outside the table name
    /// `NotFound`.
    pub fn get_search_engine(&self, engine_code: u8) -> (r: String)
        ensures
            r@ == engine_name(engine_code),
    {
        match engine_code {
            0 => String::from_str("Undocumented"),
            1 => String::from_str("AltaVista"),
            2 => String::from_str("Ask"),
            3 => String::from_str("Baidu"),
            4 => String::from_str("Excite"),
            5 => String::from_str("Google"),
            6 => String::from_str("Looksmart"),
            7 => String::from_str("Lycos"),
            8 => String::from_str("MSN"),
            9 => String::from_str("Yahoo"),
            10 => String::from_str("Cuil"),
            11 => String::from_str("InfoSeek"),
            12 => String::from_str("Miscellaneous"),
            _ => String::from_str("NotFound"),
        }
    }
}

} // verus!
