//! Authorization of a request by the claims of its token.

use prost::Message;
use vstd::prelude::*;
use vstd::string::*;

verus! {

/// A rule that lets a path through for one value of one claim.
#[derive(Debug, Default, PartialEq, Eq)]
pub struct Rules {
    pub path: String,
    pub claim: String,
    pub claim_value: String,
    pub allow: bool,
}

impl Rules {
    /// Whether the rule is for this path and this value of its claim.
    pub fn matches(&self, path: String, jwt_claim_value: &str) -> (r: bool)
        ensures
            r == (self.path@ == path@ && self.claim_value@ == jwt_claim_value@),
    {
        if self.path != path {
            return false;
        }
        if self.claim_value != String::from_str(jwt_claim_value) {
            return false;
        }
        true
    }
}

#[derive(Debug, Default, PartialEq, Eq)]
pub struct JWTConfig {
    pub rules: Vec<Rules>,
}

/// The filter state of one request.
#[derive(Debug, Default, PartialEq, Eq)]
pub struct JWT {
    pub context_id: u32,
    pub config: JWTConfig,
}

/// What the filter does with a request.
#[derive(Clone, Copy, Debug, PartialEq, Eq, Structural)]
pub enum Verdict {
    /// The request goes on to the upstream.
    Continue,
    /// The request is answered with status 403.
    Forbidden,
}

/// Why the token of a request, or a claim of it, could not be had.
#[derive(Clone, Copy, Debug, PartialEq, Eq, Structural)]
pub enum JwtError {
    /// The proxy holds no payload for the request.
    NoPayload,
    /// The payload is no length-delimited structure.
    PayloadUndecodable,
    /// The claim's bytes are no UTF-8 text.
    ClaimNotText,
}

/// Whether bytes are the length-delimited wire form of a structure of
/// named values.
pub uninterp spec fn is_length_delimited_struct(payload: Seq<u8>) -> bool;

/// Calls `prost::Message::decode_length_delimited` for the message type
/// `prost_types::Struct` and keeps whether it succeeded. Trusted: the
/// result depends on the bytes alone.
#[verifier::external_body]
fn decodes_as_struct(payload: &[u8]) -> (r: bool)
    ensures
        r == is_length_delimited_struct(payload@),
{
    prost_types::Struct::decode_length_delimited(payload).is_ok()
}

/// Calls `std::str::from_utf8` and copies the text it returns. Trusted:
/// it succeeds exactly on valid UTF-8, with the text that the bytes encode.
#[verifier::external_body]
fn text_of(bytes: &[u8]) -> (r: Option<String>)
    ensures
        r is Some <==> vstd::utf8::valid_utf8(bytes@),
        r is Some ==> r->0@ == vstd::utf8::decode_utf8(bytes@),
{
    std::str::from_utf8(bytes).ok().map(String::from)
}

/// The token that the proxy holds for a request.
pub open spec fn token_spec(data: Option<Vec<u8>>) -> Result<Seq<u8>, JwtError> {
    match data {
        None => Err(JwtError::NoPayload),
        Some(payload) => if is_length_delimited_struct(payload@) {
            Ok(payload@)
        } else {
            Err(JwtError::PayloadUndecodable)
        },
    }
}

/// The text of a claim that the proxy holds for a request.
pub open spec fn claim_spec(data: Option<Vec<u8>>) -> Result<Seq<char>, JwtError> {
    match data {
        None => Err(JwtError::NoPayload),
        Some(bytes) => if vstd::utf8::valid_utf8(bytes@) {
            Ok(vstd::utf8::decode_utf8(bytes@))
        } else {
            Err(JwtError::ClaimNotText)
        },
    }
}

/// The bytes that the proxy holds for the claim of rule `i`; nothing where
/// the list ends before it.
pub open spec fn claim_at(claims: Seq<Option<Vec<u8>>>, i: int) -> Option<Vec<u8>> {
    if 0 <= i < claims.len() {
        claims[i]
    } else {
        None
    }
}

/// Whether rule `i` lets the request through, given the bytes that the
/// proxy holds for the rule's claim.
pub open spec fn rule_allows(
    rules: Seq<Rules>,
    claims: Seq<Option<Vec<u8>>>,
    path: Seq<char>,
    i: int,
) -> bool {
    &&& claim_spec(claim_at(claims, i)) is Ok
    &&& rules[i].path@ == path
    &&& rules[i].claim_value@ == claim_spec(claim_at(claims, i))->Ok_0
}

/// A request goes on where the proxy holds a token for it and some rule
/// lets it through.
pub open spec fn verdict_spec(
    rules: Seq<Rules>,
    token: Option<Vec<u8>>,
    path: Seq<char>,
    claims: Seq<Option<Vec<u8>>>,
) -> Verdict {
    if token_spec(token) is Ok && exists|i: int|
        0 <= i < rules.len() && rule_allows(rules, claims, path, i) {
        Verdict::Continue
    } else {
        Verdict::Forbidden
    }
}

impl JWT {
    /// The filter state of the request `context_id`, without rules.
    pub fn new(context_id: u32) -> (r: JWT)
        ensures
            r.context_id == context_id,
            r.config.rules@.len() == 0,
    {
        JWT { context_id, config: JWTConfig { rules: Vec::new() } }
    }

    /// Installs the one built-in rule: the path `/headers` for the value
    /// `Jane Smith` of the claim `name`.
    pub fn config(&mut self)
        ensures
            final(self).context_id == old(self).context_id,
            final(self).config.rules@.len() == 1,
            final(self).config.rules@[0].path@ == "/headers"@,
            final(self).config.rules@[0].claim@ == "name"@,
            final(self).config.rules@[0].claim_value@ == "Jane Smith"@,
            !final(self).config.rules@[0].allow,
    {
        let mut rules: Vec<Rules> = Vec::new();
        rules.push(
            Rules {
                path: String::from_str("/headers"),
                claim: String::from_str("name"),
                claim_value: String::from_str("Jane Smith"),
                allow: false,
            },
        );
        self.config.rules = rules;
    }

    /// The text of a claim, from the bytes that the proxy holds for it.
    pub fn get_jwt_claim(&self, data: Option<Vec<u8>>) -> (r: Result<String, JwtError>)
        ensures
            match claim_spec(data) {
                Ok(text) => r is Ok && r->Ok_0@ == text,
                Err(e) => r is Err && r->Err_0 == e,
            },
    {
        match data {
            None => Err(JwtError::NoPayload),
            Some(bytes) => match text_of(bytes.as_slice()) {
                None => Err(JwtError::ClaimNotText),
                Some(text) => Ok(text),
            },
        }
    }

    /// The token of a request, from the payload that the proxy holds for
    /// it: the payload itself, where it is a length-delimited structure.
    pub fn get_jwt_token(&self, data: Option<Vec<u8>>) -> (r: Result<Vec<u8>, JwtError>)
        ensures
            match token_spec(data) {
                Ok(bytes) => r is Ok && r->Ok_0@ == bytes,
                Err(e) => r is Err && r->Err_0 == e,
            },
    {
        match data {
            None => Err(JwtError::NoPayload),
            Some(payload) => {
                if decodes_as_struct(payload.as_slice()) {
                    Ok(payload)
                } else {
                    Err(JwtError::PayloadUndecodable)
                }
            },
        }
    }

    /// Decides on a request from what the proxy holds for it: the payload
    /// of its token, its path, and for each rule, in order, the bytes of
    /// the rule's claim. A rule for which `claims` holds nothing lets
    /// nothing through.
    pub fn on_http_request_headers(
        &self,
        token: Option<Vec<u8>>,
        path: &str,
        claims: Vec<Option<Vec<u8>>>,
    ) -> (v: Verdict)
        ensures
            v == verdict_spec(self.config.rules@, token, path@, claims@),
    {
        if self.get_jwt_token(token).is_err() {
            return Verdict::Forbidden;
        }
        let mut result = false;
        let mut i: usize = 0;
        while i < self.config.rules.len()
            invariant
                i <= self.config.rules.len(),
                result == exists|j: int|
                    0 <= j < i && rule_allows(self.config.rules@, claims@, path@, j),
            decreases self.config.rules.len() - i,
        {
            let data = if i < claims.len() {
                match &claims[i] {
                    Some(bytes) => Some(bytes.clone()),
                    None => None,
                }
            } else {
                None
            };
            assert(claim_spec(data) == claim_spec(claim_at(claims@, i as int))) by {
                if data is Some {
                    assert(data->0@ =~= claims@[i as int]->0@);
                }
            }
            match self.get_jwt_claim(data) {
                Err(_) => {},
                Ok(value) => {
                    if self.config.rules[i].matches(String::from_str(path), value.as_str()) {
                        assert(rule_allows(self.config.rules@, claims@, path@, i as int));
                        result = true;
                    }
                },
            }
            i += 1;
        }
        if result {
            Verdict::Continue
        } else {
            Verdict::Forbidden
        }
    }
}

/// Whether the answer of the authorization backend grants access: some
/// header `:status` has the value `200`.
pub open spec fn granted_spec(headers: Seq<(String, String)>) -> bool {
    exists|i: int| 0 <= i < headers.len() && headers[i].0@ == ":status"@ && headers[i].1@ == "200"@
}

/// Reads the answer of the authorization backend.
pub fn access_granted(headers: &Vec<(String, String)>) -> (r: bool)
    ensures
        r == granted_spec(headers@),
{
    let mut i: usize = 0;
    while i < headers.len()
        invariant
            i <= headers.len(),
            forall|j: int|
                0 <= j < i ==> !(headers@[j].0@ == ":status"@ && headers@[j].1@ == "200"@),
        decreases headers.len() - i,
    {
        if headers[i].0 == String::from_str(":status") && headers[i].1 == String::from_str("200") {
            return true;
        }
        i += 1;
    }
    false
}

} // verus!
