use vstd::prelude::*;
use vstd::utf8::*;
use vstd::string::StringSliceAdditionalSpecFns;
use crate::text::{
    same_text, spells_word, spells_word_exec, raw_parameter, raw_parameter_exec,
    same_letter_ignoring_ascii_case, parameter_start, lemma_raw_parameter_shape,
};
use crate::startup::{refresh_ui_after_config_change, refresh_steps, RefreshStep};

verus! {

broadcast use {vstd::utf8::encode_utf8_valid_utf8, vstd::utf8::encode_utf8_decode_utf8};

// ---------------------------------------------------------------------------
// Outside parsers: the URL grammar and the form-urlencoded query pairs come
// from the `url` crate, percent decoding from the `percent-encoding` crate.
// ---------------------------------------------------------------------------

#[verifier::external_type_specification]
#[verifier::external_body]
pub struct ExUrlParseError(url::ParseError);

/// What `url::Url::parse` makes of a text, seen through `Url::scheme` and
/// `Url::query`: `None` when the text is not an absolute URL, else the
/// scheme and the query (the text after `?` and before `#`, if there is a `?`).
pub uninterp spec fn parsed_link(input: Seq<char>) -> Option<(Seq<char>, Option<Seq<char>>)>;

/// The key/value pairs that `url::form_urlencoded::parse` decodes from a query.
pub uninterp spec fn form_pairs(query: Seq<char>) -> Seq<(Seq<char>, Seq<char>)>;

/// What `percent_encoding::percent_decode_str(..).decode_utf8_lossy()` gives.
pub uninterp spec fn percent_decoded(raw: Seq<char>) -> Seq<char>;

/// The scheme and query of a parsed link.
pub struct LinkParts {
    pub scheme: String,
    pub query: Option<String>,
}

pub open spec fn opt_text_view(o: Option<String>) -> Option<Seq<char>> {
    match o {
        Some(t) => Some(t@),
        None => None,
    }
}

/// Calls `url::Url::parse` and reads back `scheme()` and `query()`. The
/// contract only names the result: the URL grammar is the `url` crate's.
#[verifier::external_body]
pub(crate) fn parse_link(input: &str) -> (r: Result<LinkParts, url::ParseError>)
    ensures
        r is Ok <==> parsed_link(input@) is Some,
        r matches Ok(p) ==> parsed_link(input@) == Some((p.scheme@, opt_text_view(p.query))),
{
    match url::Url::parse(input) {
        Ok(u) => Ok(LinkParts { scheme: u.scheme().to_string(), query: u.query().map(|q| q.to_string()) }),
        Err(e) => Err(e),
    }
}

pub open spec fn pairs_view(v: Seq<(String, String)>) -> Seq<(Seq<char>, Seq<char>)> {
    v.map_values(|p: (String, String)| (p.0@, p.1@))
}

/// Calls `url::form_urlencoded::parse` on the query's bytes and collects the
/// decoded pairs in order; this is what `Url::query_pairs` yields.
#[verifier::external_body]
fn query_pairs_of(query: &str) -> (r: Vec<(String, String)>)
    ensures
        pairs_view(r@) == form_pairs(query@),
{
    url::form_urlencoded::parse(query.as_bytes()).into_owned().collect()
}

/// Calls `percent_encoding::percent_decode_str` and `decode_utf8_lossy`: each
/// `%` with two hex digits becomes that byte, and bytes that are not UTF-8
/// become U+FFFD; `+` stays as it is. A text without `%` decodes to itself;
/// beyond that only the name is stated.
#[verifier::external_body]
fn percent_decode_lossy(raw: &str) -> (r: String)
    ensures
        r@ == percent_decoded(raw@),
        !raw@.contains('%') ==> r@ == raw@,
{
    percent_encoding::percent_decode_str(raw).decode_utf8_lossy().to_string()
}

// ---------------------------------------------------------------------------
// The deep-link grammar of this application.
// ---------------------------------------------------------------------------

/// Why a deep link was refused.
#[derive(Debug, Clone, PartialEq, Eq)]
pub enum SchemeError {
    /// A `[...]`-wrapped link whose inner slice does not fall on character boundaries.
    InvalidSliceBoundaries,
    /// The link is not an absolute URL; `reason` is the URL parser's account.
    InvalidLink { reason: String },
}

/// The kind of a refusal, as contracts speak of it.
#[derive(Debug, Clone, Copy, PartialEq, Eq, Structural)]
pub enum SchemeFailure {
    InvalidSliceBoundaries,
    InvalidLink,
}

pub open spec fn failure_of(e: SchemeError) -> SchemeFailure {
    match e {
        SchemeError::InvalidSliceBoundaries => SchemeFailure::InvalidSliceBoundaries,
        SchemeError::InvalidLink { .. } => SchemeFailure::InvalidLink,
    }
}

/// Describes a `url::ParseError` with its `Debug` form; nothing is stated of
/// the text.
#[verifier::external_body]
fn parse_error_text(e: &url::ParseError) -> String {
    format!("{:?}", e)
}

/// The value of `enable_system_proxy`.
#[derive(Debug, Clone, Copy, PartialEq, Eq, Structural)]
pub enum ProxySwitch {
    /// `true`, `1`, `on` or `enable`, in any ASCII case.
    Enable,
    /// `false`, `0`, `off` or `disable`, in any ASCII case.
    Disable,
    /// Anything else: refused with an error; the proxy is left as it is.
    Invalid,
}

impl ProxySwitch {
    /// The proxy state the switch asks for; an invalid value asks for none.
    pub fn requested_state(self) -> (r: Option<bool>)
        ensures
            self == ProxySwitch::Enable ==> r == Some(true),
            self == ProxySwitch::Disable ==> r == Some(false),
            self == ProxySwitch::Invalid ==> r is None,
    {
        match self {
            ProxySwitch::Enable => Some(true),
            ProxySwitch::Disable => Some(false),
            ProxySwitch::Invalid => None,
        }
    }
}

/// The words that switch the system proxy on.
pub open spec fn is_enable_word(v: Seq<char>) -> bool {
    spells_word(v, "true"@) || spells_word(v, "1"@) || spells_word(v, "on"@) || spells_word(
        v,
        "enable"@,
    )
}

/// The words that switch the system proxy off.
pub open spec fn is_disable_word(v: Seq<char>) -> bool {
    spells_word(v, "false"@) || spells_word(v, "0"@) || spells_word(v, "off"@) || spells_word(
        v,
        "disable"@,
    )
}

pub open spec fn proxy_switch_of(v: Seq<char>) -> ProxySwitch {
    if is_enable_word(v) {
        ProxySwitch::Enable
    } else if is_disable_word(v) {
        ProxySwitch::Disable
    } else {
        ProxySwitch::Invalid
    }
}

/// A character with ASCII capitals made small.
pub open spec fn ascii_lower_char(c: char) -> char {
    if 'A' <= c <= 'Z' {
        (c as u32 + 32) as char
    } else {
        c
    }
}

/// A text with ASCII capitals made small.
pub open spec fn ascii_lowercase(v: Seq<char>) -> Seq<char> {
    v.map_values(|c: char| ascii_lower_char(c))
}

/// A text without ASCII capitals.
pub open spec fn no_ascii_capitals(w: Seq<char>) -> bool {
    forall|i: int| 0 <= i < w.len() ==> !('A' <= #[trigger] w[i] <= 'Z')
}

proof fn lemma_same_letter_lowered(c: char, d: char)
    requires
        !('A' <= d <= 'Z'),
    ensures
        same_letter_ignoring_ascii_case(c, d) <==> same_letter_ignoring_ascii_case(
            ascii_lower_char(c),
            d,
        ),
{
    if 'A' <= c <= 'Z' {
        let l = ascii_lower_char(c);
        assert(l as u32 == c as u32 + 32);
        vstd::utf8::char_u32_cast(l, l as u32);
        vstd::utf8::char_u32_cast(d, d as u32);
        if l == d {
            assert(c as u32 + 32 == d as u32);
        }
        if c as u32 + 32 == d as u32 {
            assert(l as u32 == d as u32);
            assert((l as u32) as char == l);
            assert((d as u32) as char == d);
        }
    }
}

proof fn lemma_spells_word_lowered(v: Seq<char>, w: Seq<char>)
    requires
        no_ascii_capitals(w),
    ensures
        spells_word(v, w) <==> spells_word(ascii_lowercase(v), w),
{
    let lv = ascii_lowercase(v);
    assert forall|i: int| 0 <= i < v.len() && i < w.len() implies (same_letter_ignoring_ascii_case(
        #[trigger] v[i],
        w[i],
    ) <==> same_letter_ignoring_ascii_case(lv[i], w[i])) by {
        lemma_same_letter_lowered(v[i], w[i]);
    }
    if spells_word(lv, w) {
        assert forall|i: int| 0 <= i < v.len() implies same_letter_ignoring_ascii_case(
            #[trigger] v[i],
            w[i],
        ) by {
            assert(same_letter_ignoring_ascii_case(lv[i], w[i]));
        }
    }
    if spells_word(v, w) {
        assert forall|i: int| 0 <= i < lv.len() implies same_letter_ignoring_ascii_case(
            #[trigger] lv[i],
            w[i],
        ) by {
            assert(same_letter_ignoring_ascii_case(v[i], w[i]));
        }
    }
}

/// The proxy switch ignores ASCII case: a value reads as its lower-cased
/// form does, and the eight words read as documented.
pub proof fn lemma_proxy_switch_ignores_case(v: Seq<char>)
    ensures
        proxy_switch_of(v) == proxy_switch_of(ascii_lowercase(v)),
        proxy_switch_of(seq!['t', 'r', 'u', 'e']) == ProxySwitch::Enable,
        proxy_switch_of(seq!['1']) == ProxySwitch::Enable,
        proxy_switch_of(seq!['o', 'n']) == ProxySwitch::Enable,
        proxy_switch_of(seq!['e', 'n', 'a', 'b', 'l', 'e']) == ProxySwitch::Enable,
        proxy_switch_of(seq!['f', 'a', 'l', 's', 'e']) == ProxySwitch::Disable,
        proxy_switch_of(seq!['0']) == ProxySwitch::Disable,
        proxy_switch_of(seq!['o', 'f', 'f']) == ProxySwitch::Disable,
        proxy_switch_of(seq!['d', 'i', 's', 'a', 'b', 'l', 'e']) == ProxySwitch::Disable,
{
    reveal_strlit("true");
    reveal_strlit("1");
    reveal_strlit("on");
    reveal_strlit("enable");
    reveal_strlit("false");
    reveal_strlit("0");
    reveal_strlit("off");
    reveal_strlit("disable");
    let words = seq!["true"@, "1"@, "on"@, "enable"@, "false"@, "0"@, "off"@, "disable"@];
    assert forall|k: int| 0 <= k < words.len() implies no_ascii_capitals(#[trigger] words[k]) by {}
    assert(no_ascii_capitals("true"@) && no_ascii_capitals("1"@) && no_ascii_capitals("on"@)
        && no_ascii_capitals("enable"@) && no_ascii_capitals("false"@) && no_ascii_capitals("0"@)
        && no_ascii_capitals("off"@) && no_ascii_capitals("disable"@)) by {
        assert(words[0] == "true"@ && words[1] == "1"@ && words[2] == "on"@ && words[3]
            == "enable"@ && words[4] == "false"@ && words[5] == "0"@ && words[6] == "off"@
            && words[7] == "disable"@);
    }
    lemma_spells_word_lowered(v, "true"@);
    lemma_spells_word_lowered(v, "1"@);
    lemma_spells_word_lowered(v, "on"@);
    lemma_spells_word_lowered(v, "enable"@);
    lemma_spells_word_lowered(v, "false"@);
    lemma_spells_word_lowered(v, "0"@);
    lemma_spells_word_lowered(v, "off"@);
    lemma_spells_word_lowered(v, "disable"@);
    assert(spells_word(seq!['t', 'r', 'u', 'e'], "true"@));
    assert(spells_word(seq!['1'], "1"@));
    assert(spells_word(seq!['o', 'n'], "on"@));
    assert(spells_word(seq!['e', 'n', 'a', 'b', 'l', 'e'], "enable"@));
    assert(spells_word(seq!['f', 'a', 'l', 's', 'e'], "false"@));
    assert(spells_word(seq!['0'], "0"@));
    assert(spells_word(seq!['o', 'f', 'f'], "off"@));
    assert(spells_word(seq!['d', 'i', 's', 'a', 'b', 'l', 'e'], "disable"@));
    assert(!spells_word(seq!['o', 'n'], "1"@));
    assert(!spells_word(seq!['o', 'f', 'f'], "true"@));
    assert(!spells_word(seq!['o', 'f', 'f'], "enable"@));
    assert(!spells_word(seq!['o', 'f', 'f'], "on"@)) by {
        assert(seq!['o', 'f', 'f'].len() != "on"@.len());
    }
    assert(!spells_word(seq!['0'], "1"@)) by {
        assert(!same_letter_ignoring_ascii_case(seq!['0'][0], "1"@[0]));
    }
    assert(!spells_word(seq!['0'], "on"@));
    assert(!spells_word(seq!['0'], "true"@));
    assert(!spells_word(seq!['0'], "enable"@));
    assert(!spells_word(seq!['f', 'a', 'l', 's', 'e'], "true"@));
    assert(!spells_word(seq!['f', 'a', 'l', 's', 'e'], "1"@));
    assert(!spells_word(seq!['f', 'a', 'l', 's', 'e'], "on"@));
    assert(!spells_word(seq!['f', 'a', 'l', 's', 'e'], "enable"@));
    assert(!spells_word(seq!['d', 'i', 's', 'a', 'b', 'l', 'e'], "true"@));
    assert(!spells_word(seq!['d', 'i', 's', 'a', 'b', 'l', 'e'], "1"@));
    assert(!spells_word(seq!['d', 'i', 's', 'a', 'b', 'l', 'e'], "on"@));
    assert(!spells_word(seq!['d', 'i', 's', 'a', 'b', 'l', 'e'], "enable"@));
    assert(!spells_word(seq!['o', 'f', 'f'], "1"@));
}

/// Reads the value of `enable_system_proxy`, ignoring case. (Lower-casing the
/// whole text first gives the same answer: no other character lower-cases to
/// the ASCII letters of these words.)
pub fn parse_proxy_switch(value: &str) -> (r: ProxySwitch)
    ensures
        r == proxy_switch_of(value@),
{
    if spells_word_exec(value, "true") || spells_word_exec(value, "1") || spells_word_exec(value, "on")
        || spells_word_exec(value, "enable") {
        ProxySwitch::Enable
    } else if spells_word_exec(value, "false") || spells_word_exec(value, "0")
        || spells_word_exec(value, "off") || spells_word_exec(value, "disable") {
        ProxySwitch::Disable
    } else {
        ProxySwitch::Invalid
    }
}

/// Whether a link is wrapped as `[..]`: it starts with `[` and is longer than
/// four bytes.
pub open spec fn is_wrapped_link(param: Seq<char>) -> bool {
    param.len() > 0 && param[0] == '[' && encode_utf8(param).len() > 4
}

/// A wrapped link loses two bytes at each end; the cut must fall on character
/// boundaries. Other links are kept as they are.
pub open spec fn unwrapped_link(param: Seq<char>) -> Option<Seq<char>> {
    if is_wrapped_link(param) {
        let b = encode_utf8(param);
        let n = b.len() as int;
        if is_char_boundary(b, 2) && is_char_boundary(b, n - 2) {
            Some(decode_utf8(b.subrange(2, n - 2)))
        } else {
            None
        }
    } else {
        Some(param)
    }
}

/// Removes the `[..]` wrapping that some launchers put around a deep link.
pub fn unwrap_link(param: &str) -> (r: Result<String, SchemeError>)
    requires
        encode_utf8(param@).len() <= usize::MAX,
    ensures
        r matches Ok(s) ==> unwrapped_link(param@) == Some(s@),
        r is Err ==> unwrapped_link(param@) is None && (r matches Err(
            SchemeError::InvalidSliceBoundaries,
        )),
{
    let n = param.len();
    if param.is_empty() || param.get_char(0) != '[' || n <= 4 {
        return Ok(param.to_owned());
    }
    let ghost b = param.spec_bytes();
    if !param.is_char_boundary(2) || !param.is_char_boundary(n - 2) {
        return Err(SchemeError::InvalidSliceBoundaries);
    }
    let (head, _tail) = param.split_at(n - 2);
    proof {
        let hb = head.spec_bytes();
        assert(hb =~= b.subrange(0, n - 2));
        assert(hb[2] == b[2]);
        is_char_boundary_iff_not_is_continuation_byte(b, 2);
        is_char_boundary_iff_not_is_continuation_byte(hb, 2);
    }
    let (_lead, mid) = head.split_at(2);
    proof {
        assert(mid.spec_bytes() =~= b.subrange(2, n - 2));
    }
    Ok(mid.to_owned())
}

/// The first value that the pairs give for `key`.
pub open spec fn first_value_for(pairs: Seq<(Seq<char>, Seq<char>)>, key: Seq<char>) -> Option<
    Seq<char>,
>
    decreases pairs.len(),
{
    if pairs.len() == 0 {
        None
    } else if pairs[0].0 == key {
        Some(pairs[0].1)
    } else {
        first_value_for(pairs.drop_first(), key)
    }
}

/// The value of the first pair whose key is `key`.
pub fn lookup_pair(pairs: &Vec<(String, String)>, key: &str) -> (r: Option<String>)
    ensures
        opt_text_view(r) == first_value_for(pairs_view(pairs@), key@),
{
    let n = pairs.len();
    let mut i: usize = 0;
    assert(pairs_view(pairs@).subrange(0, n as int) =~= pairs_view(pairs@));
    while i < n
        invariant
            n == pairs@.len(),
            i <= n,
            first_value_for(pairs_view(pairs@), key@) == first_value_for(
                pairs_view(pairs@).subrange(i as int, n as int),
                key@,
            ),
        decreases n - i,
    {
        let ghost rest = pairs_view(pairs@).subrange(i as int, n as int);
        assert(rest.drop_first() =~= pairs_view(pairs@).subrange(i + 1, n as int));
        if same_text(pairs[i].0.as_str(), key) {
            return Some(pairs[i].1.clone());
        }
        i = i + 1;
    }
    None
}

/// What a `clash://` or `clash-verge://` link asks for.
#[derive(Debug, Clone, PartialEq, Eq)]
pub struct SchemeRequest {
    /// The raw value of `enable_system_proxy`, when given.
    pub proxy_value: Option<String>,
    /// How that value reads.
    pub proxy: Option<ProxySwitch>,
    /// The value of `name`, when given.
    pub name: Option<String>,
    /// The subscription URL: the percent-decoded raw value of the first
    /// `url=` parameter (a `+` in it is kept).
    pub subscription_url: Option<String>,
    /// Whether the link is an `action=import` link.
    pub import_action: bool,
    /// Whether the link is an `action=import` link that asks, with
    /// `auto_switch` set to a "true" word, to switch to the imported profile.
    pub auto_switch: bool,
}

/// A request, with texts seen as character sequences.
pub struct SchemeRequestView {
    pub proxy_value: Option<Seq<char>>,
    pub proxy: Option<ProxySwitch>,
    pub name: Option<Seq<char>>,
    pub subscription_url: Option<Seq<char>>,
    pub import_action: bool,
    pub auto_switch: bool,
}

impl View for SchemeRequest {
    type V = SchemeRequestView;

    open spec fn view(&self) -> SchemeRequestView {
        SchemeRequestView {
            proxy_value: opt_text_view(self.proxy_value),
            proxy: self.proxy,
            name: opt_text_view(self.name),
            subscription_url: opt_text_view(self.subscription_url),
            import_action: self.import_action,
            auto_switch: self.auto_switch,
        }
    }
}

/// An `action=import` link gives up on the download after this many seconds.
pub const IMPORT_ACTION_TIMEOUT_SECS: u64 = 60;

/// Whether the pairs say `action=import`.
pub open spec fn is_import_action(pairs: Seq<(Seq<char>, Seq<char>)>) -> bool {
    first_value_for(pairs, "action"@) == Some("import"@)
}

/// Whether the pairs ask to switch to the imported profile: `action=import`
/// together with an `auto_switch` value that reads as "true".
pub open spec fn asks_auto_switch(pairs: Seq<(Seq<char>, Seq<char>)>) -> bool {
    &&& is_import_action(pairs)
    &&& first_value_for(pairs, "auto_switch"@) matches Some(v) && is_enable_word(v)
}

/// The request that a link of this application's schemes makes, from its
/// decoded query pairs and its decoded subscription URL.
pub open spec fn request_of(
    pairs: Seq<(Seq<char>, Seq<char>)>,
    subscription_url: Option<Seq<char>>,
) -> SchemeRequestView {
    let proxy_value = first_value_for(pairs, "enable_system_proxy"@);
    SchemeRequestView {
        proxy_value,
        proxy: match proxy_value {
            Some(v) => Some(proxy_switch_of(v)),
            None => None,
        },
        name: first_value_for(pairs, "name"@),
        subscription_url,
        import_action: is_import_action(pairs),
        auto_switch: asks_auto_switch(pairs),
    }
}

/// Whether a scheme is one of this application's.
pub open spec fn is_app_scheme(scheme: Seq<char>) -> bool {
    scheme == "clash"@ || scheme == "clash-verge"@
}

/// Builds the request of a parsed link: `None` for a scheme that is not this
/// application's, else what its query pairs ask for, with the decoded
/// subscription URL.
pub fn request_from_parts(
    scheme: &str,
    pairs: &Vec<(String, String)>,
    subscription_url: Option<String>,
) -> (r: Option<SchemeRequest>)
    ensures
        !is_app_scheme(scheme@) ==> r is None,
        is_app_scheme(scheme@) ==> (r matches Some(q) && q@ == request_of(
            pairs_view(pairs@),
            opt_text_view(subscription_url),
        )),
{
    if !(same_text(scheme, "clash") || same_text(scheme, "clash-verge")) {
        return None;
    }
    let proxy_value = lookup_pair(pairs, "enable_system_proxy");
    let proxy = match &proxy_value {
        Some(v) => Some(parse_proxy_switch(v.as_str())),
        None => None,
    };
    let name = lookup_pair(pairs, "name");
    let action = lookup_pair(pairs, "action");
    let is_import = match &action {
        Some(a) => same_text(a.as_str(), "import"),
        None => false,
    };
    let switch_value = lookup_pair(pairs, "auto_switch");
    let switch_on = match &switch_value {
        Some(v) => parse_proxy_switch(v.as_str()) == ProxySwitch::Enable,
        None => false,
    };
    Some(
        SchemeRequest {
            proxy_value,
            proxy,
            name,
            subscription_url,
            import_action: is_import,
            auto_switch: is_import && switch_on,
        },
    )
}

/// The outcome of a deep link, over the outside parsers' results: an error,
/// `None` for a link of another scheme, or the request.
pub open spec fn scheme_outcome(param: Seq<char>) -> Result<
    Option<SchemeRequestView>,
    SchemeFailure,
> {
    match unwrapped_link(param) {
        None => Err(SchemeFailure::InvalidSliceBoundaries),
        Some(link) => match parsed_link(link) {
            None => Err(SchemeFailure::InvalidLink),
            Some((scheme, query)) => if is_app_scheme(scheme) {
                let pairs = form_pairs(
                    match query {
                        Some(q) => q,
                        None => Seq::empty(),
                    },
                );
                let url = match query {
                    Some(q) => match raw_parameter(q, "url="@) {
                        Some(raw) => Some(percent_decoded(raw)),
                        None => None,
                    },
                    None => None,
                };
                Ok(Some(request_of(pairs, url)))
            } else {
                Ok(None)
            },
        },
    }
}

pub open spec fn outcome_view(r: Result<Option<SchemeRequest>, SchemeError>) -> Result<
    Option<SchemeRequestView>,
    SchemeFailure,
> {
    match r {
        Ok(Some(q)) => Ok(Some(q@)),
        Ok(None) => Ok(None),
        Err(e) => Err(failure_of(e)),
    }
}

/// Reads a deep link (`clash://...` or `clash-verge://...`, possibly wrapped
/// as `[..]`): what it asks of the proxy switch, and which subscription it
/// asks to import under which name.
pub fn resolve_scheme(param: &str) -> (r: Result<Option<SchemeRequest>, SchemeError>)
    requires
        encode_utf8(param@).len() <= usize::MAX,
    ensures
        outcome_view(r) == scheme_outcome(param@),
{
    let link = unwrap_link(param)?;
    let parts = match parse_link(link.as_str()) {
        Ok(p) => p,
        Err(e) => {
            return Err(SchemeError::InvalidLink { reason: parse_error_text(&e) });
        },
    };
    let empty = String::new();
    let query_text = match &parts.query {
        Some(q) => q.as_str(),
        None => empty.as_str(),
    };
    let pairs = query_pairs_of(query_text);
    let raw = match &parts.query {
        Some(q) => raw_parameter_exec(q.as_str(), "url="),
        None => None,
    };
    let url = match raw {
        Some(t) => Some(percent_decode_lossy(t.as_str())),
        None => None,
    };
    Ok(request_from_parts(parts.scheme.as_str(), &pairs, url))
}

/// Without an `enable_system_proxy` pair there is no value for it.
pub proof fn lemma_no_value_without_key(pairs: Seq<(Seq<char>, Seq<char>)>, key: Seq<char>)
    requires
        forall|i: int| 0 <= i < pairs.len() ==> (#[trigger] pairs[i]).0 != key,
    ensures
        first_value_for(pairs, key) is None,
    decreases pairs.len(),
{
    if pairs.len() > 0 {
        assert(pairs[0].0 != key);
        assert forall|i: int| 0 <= i < pairs.drop_first().len() implies (
        #[trigger] pairs.drop_first()[i]).0 != key by {
            assert(pairs.drop_first()[i] == pairs[i + 1]);
        }
        lemma_no_value_without_key(pairs.drop_first(), key);
    }
}

/// The subscription URL of a link of this application's schemes is exactly
/// the percent-decoding of the raw value of its first `url=` parameter, with
/// nothing cut from the decoded text; a link without such a parameter asks
/// for no import. The raw value is the text between `url=` (at the start of
/// a parameter) and the next `&` or the end of the query.
pub proof fn lemma_subscription_url_is_decoded_parameter(
    param: Seq<char>,
    link: Seq<char>,
    scheme: Seq<char>,
    query: Seq<char>,
)
    requires
        unwrapped_link(param) == Some(link),
        parsed_link(link) == Some((scheme, Some(query))),
        is_app_scheme(scheme),
    ensures
        scheme_outcome(param) is Ok,
        scheme_outcome(param)->Ok_0 is Some,
        raw_parameter(query, "url="@) matches Some(raw) ==> scheme_outcome(param)->Ok_0->Some_0.subscription_url
            == Some(percent_decoded(raw)),
        raw_parameter(query, "url="@) is None ==> scheme_outcome(param)->Ok_0->Some_0.subscription_url is None,
        raw_parameter(query, "url="@) matches Some(raw) ==> exists|i: int|
            parameter_start(query, i) && #[trigger] query.subrange(i, i + 4) == "url="@
                && query.subrange(i + 4, i + 4 + raw.len()) == raw && !raw.contains('&') && (i + 4
                + raw.len() == query.len() || query[i + 4 + raw.len()] == '&'),
{
    reveal_strlit("url=");
    lemma_raw_parameter_shape(query, "url="@);
}

/// A link that does not mention `enable_system_proxy` leaves the system proxy
/// alone, whatever else it asks for.
pub proof fn lemma_proxy_untouched_without_parameter(
    pairs: Seq<(Seq<char>, Seq<char>)>,
    subscription_url: Option<Seq<char>>,
)
    requires
        forall|i: int| 0 <= i < pairs.len() ==> (#[trigger] pairs[i]).0 != "enable_system_proxy"@,
    ensures
        request_of(pairs, subscription_url).proxy is None,
{
    lemma_no_value_without_key(pairs, "enable_system_proxy"@);
}

/// Whether a link's proxy switch calls for a change: the new state, when the
/// value is valid and differs from the current state. An invalid value never
/// changes anything.
pub fn plan_proxy_change(current: bool, switch: ProxySwitch) -> (r: Option<bool>)
    ensures
        switch == ProxySwitch::Invalid ==> r is None,
        switch == ProxySwitch::Enable ==> r == (if current { None } else { Some(true) }),
        switch == ProxySwitch::Disable ==> r == (if current { Some(false) } else { None }),
{
    match switch.requested_state() {
        Some(target) => {
            if current != target {
                Some(target)
            } else {
                None
            }
        },
        None => None,
    }
}

/// What the user is told about a proxy switch in a deep link.
#[derive(Debug, Clone, Copy, PartialEq, Eq, Structural)]
pub enum ProxyNotice {
    /// The value was not understood; nothing changed.
    Rejected,
    /// The proxy was switched to `enabled`.
    Switched { enabled: bool },
    /// Switching the proxy failed.
    SwitchFailed,
    /// The proxy already was `enabled`: nothing changed.
    Unchanged { enabled: bool },
}

/// The notice for a proxy switch, given the state before it and, when a
/// change was asked for, whether applying it succeeded.
pub fn proxy_notice(current: bool, switch: ProxySwitch, change_applied: bool) -> (r: ProxyNotice)
    ensures
        switch == ProxySwitch::Invalid ==> r == ProxyNotice::Rejected,
        switch != ProxySwitch::Invalid && plan_proxy_change_spec(current, switch) is None ==> r
            == (ProxyNotice::Unchanged { enabled: current }),
        plan_proxy_change_spec(current, switch) matches Some(t) ==> r == (if change_applied {
            ProxyNotice::Switched { enabled: t }
        } else {
            ProxyNotice::SwitchFailed
        }),
{
    match switch.requested_state() {
        None => ProxyNotice::Rejected,
        Some(target) => {
            if current == target {
                ProxyNotice::Unchanged { enabled: current }
            } else if change_applied {
                ProxyNotice::Switched { enabled: target }
            } else {
                ProxyNotice::SwitchFailed
            }
        },
    }
}

/// The interface refresh that follows a deep-link proxy switch: the tray icon,
/// after 100 ms, exactly when a change was asked for and applied.
pub fn proxy_change_refresh(current: bool, switch: ProxySwitch, change_applied: bool) -> (r: Option<
    Vec<RefreshStep>,
>)
    ensures
        (plan_proxy_change_spec(current, switch) is Some && change_applied) ==> (r matches Some(
            steps,
        ) && steps@ == refresh_steps(false, false, false, true, 100)),
        !(plan_proxy_change_spec(current, switch) is Some && change_applied) ==> r is None,
{
    match plan_proxy_change(current, switch) {
        Some(_) => {
            if change_applied {
                Some(refresh_ui_after_config_change(false, false, false, true, 100))
            } else {
                None
            }
        },
        None => None,
    }
}

/// The change that [`plan_proxy_change`] asks for.
pub open spec fn plan_proxy_change_spec(current: bool, switch: ProxySwitch) -> Option<bool> {
    match switch {
        ProxySwitch::Enable => if current { None } else { Some(true) },
        ProxySwitch::Disable => if current { Some(false) } else { None },
        ProxySwitch::Invalid => None,
    }
}

// ---------------------------------------------------------------------------
// Links delivered inside a JSON array
// ---------------------------------------------------------------------------

/// A link as some launchers deliver it: `["` + link + `"]`.
pub open spec fn json_wrapped(s: Seq<char>) -> Seq<char> {
    seq!['[', '"'] + s + seq!['"', ']']
}

proof fn lemma_encode_concat(a: Seq<char>, b: Seq<char>)
    ensures
        encode_utf8(a + b) == encode_utf8(a) + encode_utf8(b),
    decreases a.len(),
{
    if a.len() == 0 {
        assert(a + b =~= b);
        assert(encode_utf8(a) + encode_utf8(b) =~= encode_utf8(b));
    } else {
        assert((a + b).drop_first() =~= a.drop_first() + b);
        assert((a + b)[0] == a[0]);
        lemma_encode_concat(a.drop_first(), b);
        assert(encode_utf8(a + b) =~= encode_scalar(a[0] as u32) + (encode_utf8(a.drop_first())
            + encode_utf8(b)));
    }
}

proof fn lemma_leading_byte_not_continuation(v: u32)
    requires
        is_scalar(v),
    ensures
        encode_scalar(v).len() > 0,
        !is_continuation_byte(encode_scalar(v)[0]),
{
    if has_width_1_encoding(v) {
        assert(((v & 0x7Fu32) as u8) <= 0x7Fu8) by (bit_vector);
    } else if has_width_2_encoding(v) {
        assert((0xC0u8 | ((v >> 6u32) & 0x1Fu32) as u8) >= 0xC0u8) by (bit_vector);
    } else if has_width_3_encoding(v) {
        assert((0xE0u8 | ((v >> 12u32) & 0x0Fu32) as u8) >= 0xE0u8) by (bit_vector);
    } else {
        assert((0xF0u8 | ((v >> 18u32) & 0x7u32) as u8) >= 0xF0u8) by (bit_vector);
    }
}

proof fn lemma_ascii_pair(c: char, d: char)
    requires
        (c as u32) < 0x80,
        (d as u32) < 0x80,
    ensures
        encode_utf8(seq![c, d]) == seq![(c as u32) as u8, (d as u32) as u8],
{
    let u = c as u32;
    let w = d as u32;
    assert(((u & 0x7Fu32) as u8) == (u as u8)) by (bit_vector)
        requires
            u < 0x80u32,
    ;
    assert(((w & 0x7Fu32) as u8) == (w as u8)) by (bit_vector)
        requires
            w < 0x80u32,
    ;
    assert(seq![c, d].drop_first() =~= seq![d]);
    assert(seq![d].drop_first() =~= Seq::<char>::empty());
    assert(encode_utf8(seq![d]) =~= encode_scalar(w) + encode_utf8(Seq::<char>::empty()));
    assert(encode_utf8(seq![c, d]) =~= seq![(c as u32) as u8, (d as u32) as u8]);
}

/// A non-empty link delivered as `["link"]` unwraps to the link itself.
#[verifier::rlimit(40)]
pub proof fn lemma_json_wrapped_link_unwraps(s: Seq<char>)
    requires
        s.len() > 0,
    ensures
        unwrapped_link(json_wrapped(s)) == Some(s),
{
    let w = json_wrapped(s);
    let head = seq!['[', '"'];
    let tail = seq!['"', ']'];
    lemma_ascii_pair('[', '"');
    lemma_ascii_pair('"', ']');
    lemma_encode_concat(head, s);
    lemma_encode_concat(head + s, tail);
    let es = encode_utf8(s);
    let b = encode_utf8(w);
    assert(b == encode_utf8(head) + es + encode_utf8(tail));
    char_is_scalar(s[0]);
    lemma_leading_byte_not_continuation(s[0] as u32);
    assert(es =~= encode_scalar(s[0] as u32) + encode_utf8(s.drop_first()));
    assert(es.len() > 0);
    let n = b.len() as int;
    assert(b[2] == es[0]);
    assert(b[n - 2] == ('"' as u32) as u8);
    assert(w[0] == '[');
    is_char_boundary_iff_not_is_continuation_byte(b, 2);
    is_char_boundary_iff_not_is_continuation_byte(b, n - 2);
    assert(b.subrange(2, n - 2) =~= es);
}

/// A deep link delivered as `["link"]` has the same outcome as the link
/// itself, unless the link is itself wrapped (it is unwrapped only once).
pub proof fn lemma_json_wrapped_link_same_outcome(s: Seq<char>)
    requires
        s.len() > 0,
        !is_wrapped_link(s),
    ensures
        scheme_outcome(json_wrapped(s)) == scheme_outcome(s),
{
    lemma_json_wrapped_link_unwraps(s);
}

} // verus!
