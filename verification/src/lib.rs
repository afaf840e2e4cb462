use vstd::prelude::*;

pub mod encode;
pub mod generate;
pub mod schema;
pub mod status;

use vstd::string::StringExecFns;
use crate::encode::hash_text;

verus! {

/// A fully derived report of one error occurrence: the parsed application
/// status, the stable taxonomy code, a short fingerprint of the detailed
/// message, and the client-facing and server-facing texts.
pub struct ErrorInfo<T> {
    pub app_code: T,
    pub code: String,
    pub hash: String,
    pub client_msg: String,
    pub server_msg: String,
}

/// A status type that can be read from an application code's short string
/// form, such as a numeric status parsed from `"400"`. Implementations come
/// from the status type's owner; which strings one accepts is its own
/// affair, stated by `spec_parses` and not checked here.
pub trait FromCode: Sized {
    /// The parse-error information the status type reports.
    type Err;

    /// Which short strings this status type accepts.
    spec fn spec_parses(s: Seq<char>) -> bool;

    /// Reads a status value from its short string form, or reports why the
    /// string is not a code of this type.
    fn from_code(s: &str) -> (r: Result<Self, Self::Err>)
        ensures
            r is Ok <==> Self::spec_parses(s@),
    ;
}

/// An error type whose values can report themselves as `ErrorInfo` records.
/// Implementations come from the taxonomy's dispatch logic, one branch per
/// variant.
pub trait ToErrorInfo {
    type T: FromCode;

    fn to_error_info(&self) -> ErrorInfo<Self::T>;
}

impl<T> ErrorInfo<T> {
    /// What every construction establishes: the fingerprint field really is
    /// the rendered fingerprint of the server message.
    pub open spec fn wf(&self) -> bool {
        self.hash@ == hash_text(self.server_msg@)
    }

    /// Builds the record from an already converted application status: every
    /// field comes straight from an argument but `hash`, which is computed
    /// fresh from the server message.
    pub fn from_parts(app_code: T, code: String, client_msg: String, server_msg: String) -> (r:
        ErrorInfo<T>)
        ensures
            r.app_code == app_code,
            r.code@ == code@,
            r.hash@ == hash_text(server_msg@),
            r.client_msg@ == client_msg@,
            r.server_msg@ == server_msg@,
            r.wf(),
    {
        let hash = crate::encode::render_fingerprint(server_msg.as_str());
        ErrorInfo { app_code, code, hash, client_msg, server_msg }
    }

    /// Builds the record from the outcome of an application-code conversion:
    /// a converted status yields the record `from_parts` gives, a conversion
    /// error is handed back unchanged and no record is made.
    pub fn from_conversion<E>(
        converted: Result<T, E>,
        code: String,
        client_msg: String,
        server_msg: String,
    ) -> (r: Result<ErrorInfo<T>, E>)
        ensures
            match converted {
                Ok(app_code) => matches!(r, Ok(_)) && (r matches Ok(info) ==> info.app_code
                    == app_code && info.code@ == code@ && info.hash@ == hash_text(server_msg@)
                    && info.client_msg@ == client_msg@ && info.server_msg@ == server_msg@
                    && info.wf()),
                Err(e) => (r matches Err(e2) ==> e2 == e) && matches!(r, Err(_)),
            },
    {
        match converted {
            Ok(app_code) => Ok(Self::from_parts(app_code, code, client_msg, server_msg)),
            Err(e) => Err(e),
        }
    }

    /// The message fit to show a client: the declared client text when there
    /// is one, otherwise the full server message.
    pub fn client_msg(&self) -> (r: &str)
        ensures
            r@ == self.effective_client_message(),
    {
        if self.client_msg.as_str().is_empty() {
            self.server_msg.as_str()
        } else {
            self.client_msg.as_str()
        }
    }

    /// What `client_msg` returns: the declared client text when non-empty,
    /// the server message otherwise.
    pub open spec fn effective_client_message(&self) -> Seq<char> {
        if self.client_msg@.len() == 0 {
            self.server_msg@
        } else {
            self.client_msg@
        }
    }

    /// The compact, client-safe rendering:
    /// `[` code `-` hash `] ` effective client message.
    pub open spec fn compact_text(&self) -> Seq<char> {
        "["@ + self.code@ + "-"@ + self.hash@ + "] "@ + self.effective_client_message()
    }

    /// The verbose, server-side rendering:
    /// `[` code `-` hash `], ` server message.
    pub open spec fn verbose_text(&self) -> Seq<char> {
        "["@ + self.code@ + "-"@ + self.hash@ + "], "@ + self.server_msg@
    }

    /// Renders the record compactly for a client, with the effective client
    /// message after the bracketed identifier.
    pub fn compact_string(&self) -> (r: String)
        ensures
            r@ == self.compact_text(),
    {
        let mut out: String = "[".to_owned();
        out.append(self.code.as_str());
        out.append("-");
        out.append(self.hash.as_str());
        out.append("] ");
        out.append(self.client_msg());
        out
    }

    /// Renders the record verbosely for a server log, with the full server
    /// message after the bracketed identifier.
    pub fn verbose_string(&self) -> (r: String)
        ensures
            r@ == self.verbose_text(),
    {
        let mut out: String = "[".to_owned();
        out.append(self.code.as_str());
        out.append("-");
        out.append(self.hash.as_str());
        out.append("], ");
        out.append(self.server_msg.as_str());
        out
    }
}

impl<T: FromCode> ErrorInfo<T> {
    /// Strict construction: converts the application code through the status
    /// type's string parsing. An application code the status type cannot
    /// read is an authoring defect, not an input: the contract rules it out,
    /// and an unverified caller that brings one anyway aborts here.
    pub fn new(app_code: &str, code: String, client_msg: String, server_msg: String) -> (r:
        ErrorInfo<T>)
        requires
            T::spec_parses(app_code@),
        ensures
            r.code@ == code@,
            r.hash@ == hash_text(server_msg@),
            r.client_msg@ == client_msg@,
            r.server_msg@ == server_msg@,
            r.wf(),
    {
        match T::from_code(app_code) {
            Ok(app_code) => Self::from_parts(app_code, code, client_msg, server_msg),
            Err(_) => vstd::pervasive::unreached(),
        }
    }

    /// Fallible construction: identical to `new` but an application code the
    /// status type cannot read comes back as that type's own parse error,
    /// and no record is made.
    pub fn try_new(app_code: &str, code: String, client_msg: String, server_msg: String) -> (r:
        Result<ErrorInfo<T>, T::Err>)
        ensures
            r is Ok <==> T::spec_parses(app_code@),
            r matches Ok(info) ==> info.code@ == code@ && info.hash@ == hash_text(server_msg@)
                && info.client_msg@ == client_msg@ && info.server_msg@ == server_msg@
                && info.wf(),
    {
        let converted = T::from_code(app_code);
        Self::from_conversion(converted, code, client_msg, server_msg)
    }
}

/// Fingerprints are deterministic: any two well-formed records over the same
/// server message carry the same hash, whatever their status types.
pub proof fn lemma_hash_deterministic<T, U>(a: &ErrorInfo<T>, b: &ErrorInfo<U>)
    requires
        a.wf(),
        b.wf(),
        a.server_msg@ == b.server_msg@,
    ensures
        a.hash@ == b.hash@,
{
}

} // verus!
