//! An application's credential set and the token it is exchanged for: how
//! each is built, written as JSON and read back.

use crate::json::{
    compact_object, error_text, lemma_lookup_first, lemma_lookup_insert, lookup, member_text,
    parsed_object, pretty_object, read_object, text_of, write_compact, write_pretty, Absence,
    Entries, Members,
};
use crate::text::{decimal, decimal_text, trim, trimmed};
use vstd::prelude::*;
use vstd::string::*;

verus! {

/// The grant type of every credential set.
pub open spec fn grant_type_text() -> Seq<char> {
    "client_credentials"@
}

/// What a credential set says: the four texts that the operator gave.
pub struct CredentialSet {
    pub client_id: Seq<char>,
    pub client_secret: Seq<char>,
    pub audience: Seq<char>,
    pub domain: Seq<char>,
}

/// What a token says.
pub struct TokenText {
    pub access_token: Seq<char>,
    pub token_type: Seq<char>,
}

/// Why a text could not be read as a record.
pub enum ParseFault {
    /// The text is no JSON object.
    Syntax,
    /// The object lacks a member that the record needs, or holds something
    /// other than a text there.
    Field { name: Seq<char>, why: Absence },
}

/// The members of the JSON object that stands for `c`, in the order in which
/// they are written.
pub open spec fn record_entries(c: CredentialSet) -> Entries {
    seq![
        ("client_id"@, c.client_id),
        ("client_secret"@, c.client_secret),
        ("audience"@, c.audience),
        ("domain"@, c.domain),
        ("grant_type"@, grant_type_text()),
    ]
}

/// The members of the JSON object that stands for `t`.
pub open spec fn token_entries(t: TokenText) -> Entries {
    seq![("access_token"@, t.access_token), ("token_type"@, t.token_type)]
}

/// The fault, if any, in asking `members` for the text of `name`.
pub open spec fn fault_at(members: Members, name: Seq<char>) -> Option<ParseFault> {
    match text_of(members, name) {
        Err(why) => Some(ParseFault::Field { name, why }),
        Ok(_) => None,
    }
}

/// The credential set that the members of a stored object stand for. All
/// five members must be there as texts, and the first that is not decides the
/// fault. What `grant_type` holds is not taken over, and members of other
/// names do not count.
pub open spec fn record_of(members: Members) -> Result<CredentialSet, ParseFault> {
    if fault_at(members, "client_id"@) is Some {
        Err(fault_at(members, "client_id"@)->0)
    } else if fault_at(members, "client_secret"@) is Some {
        Err(fault_at(members, "client_secret"@)->0)
    } else if fault_at(members, "audience"@) is Some {
        Err(fault_at(members, "audience"@)->0)
    } else if fault_at(members, "domain"@) is Some {
        Err(fault_at(members, "domain"@)->0)
    } else if fault_at(members, "grant_type"@) is Some {
        Err(fault_at(members, "grant_type"@)->0)
    } else {
        Ok(
            CredentialSet {
                client_id: text_of(members, "client_id"@)->Ok_0,
                client_secret: text_of(members, "client_secret"@)->Ok_0,
                audience: text_of(members, "audience"@)->Ok_0,
                domain: text_of(members, "domain"@)->Ok_0,
            },
        )
    }
}

/// The token that the members of a response object stand for. Both members
/// must be there as texts; members of other names do not count.
pub open spec fn token_of(members: Members) -> Result<TokenText, ParseFault> {
    if fault_at(members, "access_token"@) is Some {
        Err(fault_at(members, "access_token"@)->0)
    } else if fault_at(members, "token_type"@) is Some {
        Err(fault_at(members, "token_type"@)->0)
    } else {
        Ok(
            TokenText {
                access_token: text_of(members, "access_token"@)->Ok_0,
                token_type: text_of(members, "token_type"@)->Ok_0,
            },
        )
    }
}

/// What reading a stored file yields, given what its text parses to.
pub open spec fn loaded(parsed: Option<Members>) -> Result<CredentialSet, ParseFault> {
    match parsed {
        None => Err(ParseFault::Syntax),
        Some(members) => record_of(members),
    }
}

/// The bytes of the file that stores `c`: the pretty-printed object and a
/// line end; `None` where the object cannot be written.
pub open spec fn config_text(c: CredentialSet) -> Option<Seq<u8>> {
    match pretty_object(record_entries(c)) {
        Some(object) => Some(object.push(0x0Au8)),
        None => None,
    }
}

/// The body of the token request for `c`: the whole credential set as a
/// compact object; `None` where the object cannot be written.
pub open spec fn request_text(c: CredentialSet) -> Option<Seq<u8>> {
    compact_object(record_entries(c))
}

/// The token `t` as a compact object; `None` where the object cannot be
/// written.
pub open spec fn token_text(t: TokenText) -> Option<Seq<u8>> {
    compact_object(token_entries(t))
}

/// The address of the token endpoint of the identity provider at `domain`.
pub open spec fn token_endpoint(domain: Seq<char>) -> Seq<char> {
    "https://"@ + domain + "/oauth/token"@
}

/// Whether an HTTP status reports a failure: a client error or a server
/// error.
pub open spec fn is_failure_status(status: u16) -> bool {
    400 <= status <= 599
}

/// Why no token came of a request.
pub enum FetchFault {
    /// The request could not be made up.
    Request,
    /// No response arrived.
    Transport,
    /// The identity provider answered with a failure status.
    Http { status: u16 },
    /// The response could not be read as a token.
    Decode { cause: ParseFault },
}

/// What a response yields, given its status and what its body parses to. A
/// failure status decides alone: the body is not looked at.
pub open spec fn response_token(status: u16, parsed: Option<Members>) -> Result<
    TokenText,
    FetchFault,
> {
    if is_failure_status(status) {
        Err(FetchFault::Http { status })
    } else {
        match parsed {
            None => Err(FetchFault::Decode { cause: ParseFault::Syntax }),
            Some(members) => match token_of(members) {
                Ok(token) => Ok(token),
                Err(cause) => Err(FetchFault::Decode { cause }),
            },
        }
    }
}

/// A text could not be read as a record.
#[derive(Debug)]
pub enum ParseError {
    /// The text is no JSON object; `detail` says where it went wrong.
    Syntax { detail: String },
    /// The object lacks the member `name`, or holds no text there.
    Field { name: String, why: Absence },
}

impl View for ParseError {
    type V = ParseFault;

    open spec fn view(&self) -> ParseFault {
        match self {
            ParseError::Syntax { .. } => ParseFault::Syntax,
            ParseError::Field { name, why } => ParseFault::Field { name: name@, why: *why },
        }
    }
}

impl ParseError {
    /// What `message` says.
    pub open spec fn text(&self) -> Seq<char> {
        match self {
            ParseError::Syntax { detail } => detail@,
            ParseError::Field { name, why: Absence::Missing } => "missing field `"@ + name@ + "`"@,
            ParseError::Field { name, why: Absence::NotText } => "field `"@ + name@
                + "` is not a string"@,
        }
    }

    /// What to tell the user.
    pub fn message(&self) -> (r: String)
        ensures
            r@ == self.text(),
    {
        match self {
            ParseError::Syntax { detail } => detail.clone(),
            ParseError::Field { name, why: Absence::Missing } => {
                let mut text = String::from_str("missing field `");
                text.append(name.as_str());
                text.append("`");
                text
            },
            ParseError::Field { name, why: Absence::NotText } => {
                let mut text = String::from_str("field `");
                text.append(name.as_str());
                text.append("` is not a string");
                text
            },
        }
    }
}

/// A record could not be written as JSON; `detail` says why.
#[derive(Debug)]
pub struct EncodeError {
    pub detail: String,
}

impl EncodeError {
    /// What to tell the user.
    pub fn message(&self) -> (r: String)
        ensures
            r@ == self.detail@,
    {
        self.detail.clone()
    }
}

/// No token came of a request.
#[derive(Debug)]
pub enum FetchError {
    /// The request could not be made up; `detail` says why.
    Request { detail: String },
    /// No response arrived; `detail` says what the transport reported.
    Transport { detail: String },
    /// The identity provider answered with the failure status `status`.
    Http { status: u16 },
    /// The response could not be read as a token.
    Decode { cause: ParseError },
}

impl View for FetchError {
    type V = FetchFault;

    open spec fn view(&self) -> FetchFault {
        match self {
            FetchError::Request { .. } => FetchFault::Request,
            FetchError::Transport { .. } => FetchFault::Transport,
            FetchError::Http { status } => FetchFault::Http { status: *status },
            FetchError::Decode { cause } => FetchFault::Decode { cause: cause@ },
        }
    }
}

impl FetchError {
    /// What `message` says.
    pub open spec fn text(&self) -> Seq<char> {
        match self {
            FetchError::Request { detail } => "could not write the request: "@ + detail@,
            FetchError::Transport { detail } => "could not reach the identity provider: "@
                + detail@,
            FetchError::Http { status } => "HTTP status "@ + decimal(*status as nat),
            FetchError::Decode { cause } => "could not read the response: "@ + cause.text(),
        }
    }

    /// What to tell the user.
    pub fn message(&self) -> (r: String)
        ensures
            r@ == self.text(),
    {
        match self {
            FetchError::Request { detail } => {
                let mut text = String::from_str("could not write the request: ");
                text.append(detail.as_str());
                text
            },
            FetchError::Transport { detail } => {
                let mut text = String::from_str("could not reach the identity provider: ");
                text.append(detail.as_str());
                text
            },
            FetchError::Http { status } => {
                let mut text = String::from_str("HTTP status ");
                text.append(decimal_text(*status).as_str());
                text
            },
            FetchError::Decode { cause } => {
                let mut text = String::from_str("could not read the response: ");
                text.append(cause.message().as_str());
                text
            },
        }
    }
}

/// Application credentials.
pub struct Auth0M2MCredentials {
    client_id: String,
    client_secret: String,
    audience: String,
    domain: String,
    grant_type: String,
}

impl View for Auth0M2MCredentials {
    type V = CredentialSet;

    closed spec fn view(&self) -> CredentialSet {
        CredentialSet {
            client_id: self.client_id@,
            client_secret: self.client_secret@,
            audience: self.audience@,
            domain: self.domain@,
        }
    }
}

impl Auth0M2MCredentials {
    #[verifier::type_invariant]
    spec fn has_fixed_grant_type(self) -> bool {
        self.grant_type@ == grant_type_text()
    }

    /// A credential set of the four texts given; its grant type is
    /// `client_credentials`.
    pub fn new(client_id: String, client_secret: String, audience: String, domain: String) -> (r:
        Self)
        ensures
            r@ == (CredentialSet {
                client_id: client_id@,
                client_secret: client_secret@,
                audience: audience@,
                domain: domain@,
            }),
    {
        Self {
            client_id,
            client_secret,
            audience,
            domain,
            grant_type: String::from_str("client_credentials"),
        }
    }

    /// The identifier of the client at the identity provider.
    pub fn client_id(&self) -> (r: &str)
        ensures
            r@ == self@.client_id,
    {
        self.client_id.as_str()
    }

    /// The client's secret. It belongs in the stored file and in the token
    /// request, and nowhere else.
    pub fn client_secret(&self) -> (r: &str)
        ensures
            r@ == self@.client_secret,
    {
        self.client_secret.as_str()
    }

    /// The identifier of the API for which tokens are asked.
    pub fn audience(&self) -> (r: &str)
        ensures
            r@ == self@.audience,
    {
        self.audience.as_str()
    }

    /// The domain of the identity provider, without scheme or path.
    pub fn domain(&self) -> (r: &str)
        ensures
            r@ == self@.domain,
    {
        self.domain.as_str()
    }

    /// The grant type, which is the same for every credential set.
    pub fn grant_type(&self) -> (r: &str)
        ensures
            r@ == grant_type_text(),
    {
        proof {
            use_type_invariant(self);
        }
        self.grant_type.as_str()
    }

    /// The members of the JSON object that stands for this credential set.
    pub fn entries(&self) -> (r: Vec<(String, String)>)
        ensures
            r.deep_view() == record_entries(self@),
    {
        proof {
            use_type_invariant(self);
        }
        let mut r: Vec<(String, String)> = Vec::new();
        r.push((String::from_str("client_id"), self.client_id.clone()));
        r.push((String::from_str("client_secret"), self.client_secret.clone()));
        r.push((String::from_str("audience"), self.audience.clone()));
        r.push((String::from_str("domain"), self.domain.clone()));
        r.push((String::from_str("grant_type"), self.grant_type.clone()));
        assert(r.deep_view() =~= record_entries(self@));
        r
    }

    /// The bytes of the file that stores this credential set: the object,
    /// pretty-printed, and a line end. Fails exactly where the object cannot
    /// be written.
    pub fn to_json(&self) -> (r: Result<Vec<u8>, EncodeError>)
        ensures
            match config_text(self@) {
                Some(text) => r matches Ok(bytes) && bytes@ == text,
                None => r is Err,
            },
    {
        let entries = self.entries();
        finish_file(write_pretty(&entries))
    }

    /// Reads a credential set from the members of a stored object.
    pub fn from_members(members: &Vec<(String, Option<String>)>) -> (r: Result<Self, ParseError>)
        ensures
            match record_of(members.deep_view()) {
                Ok(c) => r matches Ok(record) && record@ == c,
                Err(fault) => r matches Err(e) && e@ == fault,
            },
    {
        let client_id = match member_text(members, "client_id") {
            Ok(text) => text,
            Err(why) => {
                return Err(ParseError::Field { name: String::from_str("client_id"), why });
            },
        };
        let client_secret = match member_text(members, "client_secret") {
            Ok(text) => text,
            Err(why) => {
                return Err(ParseError::Field { name: String::from_str("client_secret"), why });
            },
        };
        let audience = match member_text(members, "audience") {
            Ok(text) => text,
            Err(why) => {
                return Err(ParseError::Field { name: String::from_str("audience"), why });
            },
        };
        let domain = match member_text(members, "domain") {
            Ok(text) => text,
            Err(why) => {
                return Err(ParseError::Field { name: String::from_str("domain"), why });
            },
        };
        match member_text(members, "grant_type") {
            Ok(_) => Ok(Auth0M2MCredentials::new(client_id, client_secret, audience, domain)),
            Err(why) => Err(ParseError::Field { name: String::from_str("grant_type"), why }),
        }
    }

    /// Reads a credential set from the bytes of the file that stores it.
    /// Fails where the bytes are no JSON object, and where the object lacks
    /// one of the five members or holds no text there. Members of other
    /// names are passed over, and whatever text `grant_type` holds, the
    /// credential set has the one grant type that every set has.
    pub fn from_json(text: &[u8]) -> (r: Result<Self, ParseError>)
        ensures
            match loaded(parsed_object(text@)) {
                Ok(c) => r matches Ok(record) && record@ == c,
                Err(fault) => r matches Err(e) && e@ == fault,
            },
    {
        match read_object(text) {
            Ok(members) => Auth0M2MCredentials::from_members(&members),
            Err(e) => Err(ParseError::Syntax { detail: error_text(&e) }),
        }
    }

    /// A credential set of the four answers that the operator typed, each
    /// without the whitespace around it and otherwise as typed.
    pub fn from_prompt(client_id: &str, client_secret: &str, audience: &str, domain: &str) -> (r:
        Self)
        ensures
            r@ == (CredentialSet {
                client_id: trimmed(client_id@),
                client_secret: trimmed(client_secret@),
                audience: trimmed(audience@),
                domain: trimmed(domain@),
            }),
    {
        Auth0M2MCredentials::new(trim(client_id), trim(client_secret), trim(audience), trim(domain))
    }

    /// The address to which the token request goes.
    pub fn token_url(&self) -> (r: String)
        ensures
            r@ == token_endpoint(self@.domain),
    {
        let mut url = String::from_str("https://");
        url.append(self.domain.as_str());
        url.append("/oauth/token");
        url
    }

    /// The body of the token request: the whole credential set, grant type
    /// included, as a compact JSON object. Fails exactly where the object
    /// cannot be written.
    pub fn request_body(&self) -> (r: Result<Vec<u8>, EncodeError>)
        ensures
            match request_text(self@) {
                Some(text) => r matches Ok(bytes) && bytes@ == text,
                None => r is Err,
            },
    {
        let entries = self.entries();
        encoded(write_compact(&entries))
    }
}

/// An access token, as the identity provider issued it.
pub struct Token {
    access_token: String,
    token_type: String,
}

impl View for Token {
    type V = TokenText;

    closed spec fn view(&self) -> TokenText {
        TokenText { access_token: self.access_token@, token_type: self.token_type@ }
    }
}

impl Token {
    /// A token of the two texts given.
    pub fn new(access_token: String, token_type: String) -> (r: Self)
        ensures
            r@ == (TokenText { access_token: access_token@, token_type: token_type@ }),
    {
        Token { access_token, token_type }
    }

    /// The token itself.
    pub fn access_token(&self) -> (r: &str)
        ensures
            r@ == self@.access_token,
    {
        self.access_token.as_str()
    }

    /// The kind of token, such as `Bearer`.
    pub fn token_type(&self) -> (r: &str)
        ensures
            r@ == self@.token_type,
    {
        self.token_type.as_str()
    }

    /// The members of the JSON object that stands for this token.
    pub fn entries(&self) -> (r: Vec<(String, String)>)
        ensures
            r.deep_view() == token_entries(self@),
    {
        let mut r: Vec<(String, String)> = Vec::new();
        r.push((String::from_str("access_token"), self.access_token.clone()));
        r.push((String::from_str("token_type"), self.token_type.clone()));
        assert(r.deep_view() =~= token_entries(self@));
        r
    }

    /// This token as a compact JSON object. Fails exactly where the object
    /// cannot be written.
    pub fn to_json(&self) -> (r: Result<Vec<u8>, EncodeError>)
        ensures
            match token_text(self@) {
                Some(text) => r matches Ok(bytes) && bytes@ == text,
                None => r is Err,
            },
    {
        let entries = self.entries();
        encoded(write_compact(&entries))
    }

    /// Reads a token from the members of a response object.
    pub fn from_members(members: &Vec<(String, Option<String>)>) -> (r: Result<Self, ParseError>)
        ensures
            match token_of(members.deep_view()) {
                Ok(t) => r matches Ok(token) && token@ == t,
                Err(fault) => r matches Err(e) && e@ == fault,
            },
    {
        let access_token = match member_text(members, "access_token") {
            Ok(text) => text,
            Err(why) => {
                return Err(ParseError::Field { name: String::from_str("access_token"), why });
            },
        };
        match member_text(members, "token_type") {
            Ok(token_type) => Ok(Token::new(access_token, token_type)),
            Err(why) => Err(ParseError::Field { name: String::from_str("token_type"), why }),
        }
    }

    /// Reads the token out of the identity provider's response. A response with
    /// a failure status (400 to 599) is an error whatever its body holds;
    /// any other must hold a JSON object with the token's two members.
    pub fn from_response(status: u16, body: &[u8]) -> (r: Result<Self, FetchError>)
        ensures
            match response_token(status, parsed_object(body@)) {
                Ok(t) => r matches Ok(token) && token@ == t,
                Err(fault) => r matches Err(e) && e@ == fault,
            },
    {
        if 400 <= status && status <= 599 {
            return Err(FetchError::Http { status });
        }
        match read_object(body) {
            Ok(members) => match Token::from_members(&members) {
                Ok(token) => Ok(token),
                Err(cause) => Err(FetchError::Decode { cause }),
            },
            Err(e) => Err(
                FetchError::Decode { cause: ParseError::Syntax { detail: error_text(&e) } },
            ),
        }
    }
}

/// What came of writing a record as JSON, in the library's own terms: the
/// bytes as they are, or the failure with what was said of it.
pub fn encoded(written: Result<Vec<u8>, serde_json::Error>) -> (r: Result<Vec<u8>, EncodeError>)
    ensures
        match written {
            Ok(object) => r matches Ok(bytes) && bytes@ == object@,
            Err(_) => r is Err,
        },
{
    match written {
        Ok(object) => Ok(object),
        Err(e) => Err(EncodeError { detail: error_text(&e) }),
    }
}

/// Completes the bytes of a stored file: a line end follows the object that
/// was written; a failure to write it is passed on.
pub fn finish_file(written: Result<Vec<u8>, serde_json::Error>) -> (r: Result<
    Vec<u8>,
    EncodeError,
>)
    ensures
        match written {
            Ok(object) => r matches Ok(bytes) && bytes@ == object@.push(0x0Au8),
            Err(_) => r is Err,
        },
{
    match encoded(written) {
        Ok(object) => {
            let mut bytes = object;
            bytes.push(0x0Au8);
            Ok(bytes)
        },
        Err(e) => Err(e),
    }
}

/// The members that a reader finds in an object written with `entries`, where
/// no two entries share a name: each name with its text.
pub open spec fn as_members(entries: Entries) -> Members {
    Seq::new(entries.len(), |i: int| (entries[i].0, Some(entries[i].1)))
}

/// Whether `name` is one of the five member names of a stored credential set.
pub open spec fn is_record_name(name: Seq<char>) -> bool {
    ||| name == "client_id"@
    ||| name == "client_secret"@
    ||| name == "audience"@
    ||| name == "domain"@
    ||| name == "grant_type"@
}

proof fn lemma_record_names_differ()
    ensures
        "client_id"@ != "client_secret"@,
        "client_id"@ != "audience"@,
        "client_id"@ != "domain"@,
        "client_id"@ != "grant_type"@,
        "client_secret"@ != "audience"@,
        "client_secret"@ != "domain"@,
        "client_secret"@ != "grant_type"@,
        "audience"@ != "domain"@,
        "audience"@ != "grant_type"@,
        "domain"@ != "grant_type"@,
{
    reveal_strlit("client_id");
    reveal_strlit("client_secret");
    reveal_strlit("audience");
    reveal_strlit("domain");
    reveal_strlit("grant_type");
    assert("client_id"@.len() == 9);
    assert("client_secret"@.len() == 13);
    assert("audience"@.len() == 8);
    assert("domain"@.len() == 6);
    assert("grant_type"@.len() == 10);
}

/// A stored credential set loads as itself: the members that `c` is written
/// as stand for `c` again, with all four texts as they were.
pub proof fn lemma_written_record_reads_back(c: CredentialSet)
    ensures
        record_of(as_members(record_entries(c))) == Ok::<CredentialSet, ParseFault>(c),
{
    lemma_record_names_differ();
    let members = as_members(record_entries(c));
    lemma_lookup_first(members, "client_id"@, 0);
    lemma_lookup_first(members, "client_secret"@, 1);
    lemma_lookup_first(members, "audience"@, 2);
    lemma_lookup_first(members, "domain"@, 3);
    lemma_lookup_first(members, "grant_type"@, 4);
}

/// What `grant_type` holds in a stored object does not count, as long as it
/// is a text: two objects that agree on the other four members stand for the
/// same credential set.
pub proof fn lemma_grant_type_not_taken_over(one: Members, other: Members)
    requires
        lookup(one, "client_id"@) == lookup(other, "client_id"@),
        lookup(one, "client_secret"@) == lookup(other, "client_secret"@),
        lookup(one, "audience"@) == lookup(other, "audience"@),
        lookup(one, "domain"@) == lookup(other, "domain"@),
        text_of(one, "grant_type"@) is Ok,
        text_of(other, "grant_type"@) is Ok,
    ensures
        record_of(one) == record_of(other),
{
}

/// An object without a member `client_id` is no credential set, whatever
/// else it holds.
pub proof fn lemma_record_needs_client_id(members: Members)
    requires
        lookup(members, "client_id"@) is None,
    ensures
        record_of(members) == Err::<CredentialSet, ParseFault>(
            ParseFault::Field { name: "client_id"@, why: Absence::Missing },
        ),
{
}

/// Members of other names do not count: with one more member, of a name that
/// no credential set uses, put anywhere into an object, the object stands for
/// what it stood for before.
pub proof fn lemma_other_members_ignored(
    members: Members,
    at: int,
    extra: (Seq<char>, Option<Seq<char>>),
)
    requires
        0 <= at <= members.len(),
        !is_record_name(extra.0),
    ensures
        record_of(members.insert(at, extra)) == record_of(members),
{
    lemma_lookup_insert(members, at, extra, "client_id"@);
    lemma_lookup_insert(members, at, extra, "client_secret"@);
    lemma_lookup_insert(members, at, extra, "audience"@);
    lemma_lookup_insert(members, at, extra, "domain"@);
    lemma_lookup_insert(members, at, extra, "grant_type"@);
}

} // verus!
