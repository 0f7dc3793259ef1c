//! What holds of the connector as a whole.

use vstd::prelude::*;

use crate::auth::{
    carries_secret, header_text, header_value, is_key_name, is_key_pair,
    key_header, queries_secret, unauthorized_body, Guard, RequestModel,
};
use crate::extension::{header_example, stream_url};
use crate::ids;
use crate::rpc::{request_handling, HandlingModel, HandlingOf, RpcModel};
use crate::secret::{configured_key, is_fresh_key, kept_key, key_text};
use crate::text;

verus! {

// ---------------------------------------------------------------------------
// Who is let in
// ---------------------------------------------------------------------------

/// A secret that can be sent in a key header: it neither starts nor ends with
/// white space.
pub open spec fn is_trim(secret: Seq<char>) -> bool {
    secret.len() > 0 ==> !text::is_space(secret[0]) && !text::is_space(secret.last())
}

/// A secret that can be sent as a bearer token: nor does it start with the word
/// that announces it.
pub open spec fn is_sendable(secret: Seq<char>) -> bool {
    is_trim(secret) && !text::has_prefix(secret, "Bearer "@)
}

/// A secret that can be sent in a query.
pub open spec fn is_queryable(secret: Seq<char>) -> bool {
    forall|k: int| 0 <= k < secret.len() ==> #[trigger] secret[k] != '&'
}

/// A request that is not let in gets the same refusal whatever it asks for, and
/// no tool is called and no stream opened for it.
pub proof fn law_refusal_is_unconditional(
    guard: Guard,
    request: RequestModel,
    message: Option<RpcModel>,
    fresh: u128,
    now: Seq<char>,
)
    requires
        !guard.admits(request),
    ensures
        request_handling(guard, request, message, fresh, now) == (HandlingModel::Reply {
            status: 401,
            body: unauthorized_body(),
        }),
{
}

/// A request that is let in is not refused.
pub proof fn law_admitted_is_not_refused(
    guard: Guard,
    request: RequestModel,
    message: Option<RpcModel>,
    fresh: u128,
    now: Seq<char>,
)
    requires
        guard.admits(request),
    ensures
        match request_handling(guard, request, message, fresh, now) {
            HandlingOf::Reply { status, .. } => status == 200,
            _ => true,
        },
{
}

/// `Authorization: Bearer <key>` lets a request in.
pub proof fn law_bearer_header_lets_in(request: RequestModel, secret: Seq<char>)
    requires
        is_sendable(secret),
        header_text(request.headers, "authorization"@) == Some("Bearer "@ + secret),
    ensures
        carries_secret(request, secret),
{
    lemma_bearer_value(secret);
}

/// A bearer's value without the announcement is the secret.
proof fn lemma_bearer_value(secret: Seq<char>)
    requires
        is_sendable(secret),
    ensures
        text::has_prefix("Bearer "@ + secret, "Bearer "@),
        text::trimmed(text::without_prefixes("Bearer "@ + secret, "Bearer "@)) == secret,
{
    reveal_strlit("Bearer ");
    let value = "Bearer "@ + secret;
    assert(value.take("Bearer "@.len() as int) =~= "Bearer "@);
    assert(value.skip("Bearer "@.len() as int) =~= secret);
    assert(text::without_prefixes(secret, "Bearer "@) == secret);
    text::lemma_trimmed_is_same(secret);
}

/// `X-MCP-Key: <key>` lets a request in.
pub proof fn law_mcp_key_header_lets_in(request: RequestModel, secret: Seq<char>)
    requires
        is_trim(secret),
        header_text(request.headers, "x-mcp-key"@) == Some(secret),
    ensures
        carries_secret(request, secret),
{
    text::lemma_trimmed_is_same(secret);
}

/// `X-API-Key: <key>` lets a request in that has no `X-MCP-Key`.
pub proof fn law_api_key_header_lets_in(request: RequestModel, secret: Seq<char>)
    requires
        is_trim(secret),
        header_value(request.headers, "x-mcp-key"@) is None,
        header_text(request.headers, "x-api-key"@) == Some(secret),
    ensures
        carries_secret(request, secret),
{
    text::lemma_trimmed_is_same(secret);
}

/// `<name>=<key>` among the query's parameters lets a request in, for each of
/// the names there are, wherever it stands among the others.
pub proof fn law_query_parameter_lets_in(
    request: RequestModel,
    before: Seq<char>,
    name: Seq<char>,
    secret: Seq<char>,
    after: Seq<char>,
)
    requires
        is_key_name(name),
        is_queryable(secret),
        before.len() > 0 ==> before.last() == '&',
        after.len() > 0 ==> after[0] == '&',
        request.query == Some(before + (name + seq!['='] + secret) + after),
    ensures
        carries_secret(request, secret),
{
    let pair = name + seq!['='] + secret;
    lemma_key_name_is_plain(name);
    text::lemma_halves_of_joined(name, secret, '=');
    assert(is_key_pair(pair, secret));
    assert forall|k: int| 0 <= k < pair.len() implies #[trigger] pair[k] != '&' by {
        if k < name.len() {
            assert(pair[k] == name[k]);
        } else if k > name.len() {
            assert(pair[k] == secret[k - name.len() - 1]);
        }
    }
    text::lemma_one_piece(pair, '&');
    let query = request.query->0;
    // The pair with what follows it.
    let tail = pair + after;
    let tail_pieces = text::pieces(tail, '&');
    if after.len() == 0 {
        assert(tail =~= pair);
    } else {
        assert(tail =~= pair + seq!['&'] + after.drop_first());
        text::lemma_pieces_of_joined(pair, after.drop_first(), '&');
    }
    assert(tail_pieces.len() > 0 && tail_pieces[0] == pair);
    if before.len() == 0 {
        assert(query =~= tail);
        assert(is_key_pair(text::pieces(query, '&')[0], secret));
    } else {
        let head = before.drop_last();
        assert(query =~= head + seq!['&'] + tail);
        text::lemma_pieces_of_joined(head, tail, '&');
        let at = text::pieces(head, '&').len() as int;
        assert(text::pieces(query, '&')[at] == pair);
        assert(is_key_pair(text::pieces(query, '&')[at], secret));
    }
    assert(queries_secret(request.query, secret));
}

proof fn lemma_key_name_is_plain(name: Seq<char>)
    requires
        is_key_name(name),
    ensures
        forall|k: int| 0 <= k < name.len() ==> #[trigger] name[k] != '=' && name[k] != '&',
{
    reveal_strlit("api_key");
    reveal_strlit("token");
    reveal_strlit("key");
    reveal_strlit("api-key");
    reveal_strlit("mcp_key");
}

/// A request with none of the headers and no query is let in by no secret.
pub proof fn law_nothing_sent_nothing_granted(request: RequestModel, secret: Seq<char>)
    requires
        header_value(request.headers, "authorization"@) is None,
        header_value(request.headers, "x-mcp-key"@) is None,
        header_value(request.headers, "x-api-key"@) is None,
        request.query is None,
    ensures
        !carries_secret(request, secret),
{
}

/// The request sends that key in one of the ways there are, one in which it can
/// be sent, and sends no other.
pub open spec fn sends_only(request: RequestModel, key: Seq<char>) -> bool {
    let bearer = header_value(request.headers, "authorization"@);
    let mcp = header_value(request.headers, "x-mcp-key"@);
    let api = header_value(request.headers, "x-api-key"@);
    ||| {
        &&& is_sendable(key)
        &&& header_text(request.headers, "authorization"@) == Some("Bearer "@ + key)
        &&& mcp is None && api is None && request.query is None
    }
    ||| {
        &&& is_trim(key)
        &&& header_text(request.headers, "x-mcp-key"@) == Some(key)
        &&& bearer is None && api is None && request.query is None
    }
    ||| {
        &&& is_trim(key)
        &&& header_text(request.headers, "x-api-key"@) == Some(key)
        &&& bearer is None && mcp is None && request.query is None
    }
    ||| {
        &&& is_queryable(key)
        &&& exists|name: Seq<char>|
            #![trigger is_key_name(name)]
            is_key_name(name) && request.query == Some(name + seq!['='] + key)
        &&& bearer is None && mcp is None && api is None
    }
}

/// No secret but that key lets the request in.
pub open spec fn opens_at_most(request: RequestModel, key: Seq<char>) -> bool {
    forall|secret: Seq<char>| #[trigger] carries_secret(request, secret) ==> secret == key
}

/// A request that sends one key and nothing else is let in by that key and
/// refused by every other, whichever way it sends it.
pub proof fn law_other_key_is_refused(request: RequestModel, sent: Seq<char>, secret: Seq<char>)
    requires
        sends_only(request, sent),
    ensures
        carries_secret(request, secret) <==> secret == sent,
        opens_at_most(request, sent),
{
    if header_value(request.headers, "authorization"@) is Some {
        lemma_bearer_value(sent);
    } else if key_header(request.headers) is Some {
        text::lemma_trimmed_is_same(sent);
    } else {
        let name = choose|name: Seq<char>|
            #![trigger is_key_name(name)]
            is_key_name(name) && request.query == Some(name + seq!['='] + sent);
        let pair = name + seq!['='] + sent;
        lemma_key_name_is_plain(name);
        text::lemma_halves_of_joined(name, sent, '=');
        assert forall|k: int| 0 <= k < pair.len() implies #[trigger] pair[k] != '&' by {
            if k < name.len() {
                assert(pair[k] == name[k]);
            } else if k > name.len() {
                assert(pair[k] == sent[k - name.len() - 1]);
            }
        }
        text::lemma_one_piece(pair, '&');
        let query = request.query->0;
        assert(query == pair);
        assert(text::pieces(query, '&') =~= seq![pair]);
        assert(is_key_pair(text::pieces(query, '&')[0], sent));
        assert(queries_secret(request.query, sent));
    }
}

/// After a rotation the new key is in force: a request that nothing but the old
/// one would let in is refused, and one that sends the new one is let in.
pub proof fn law_rotation_replaces_the_key(
    variable: Option<Seq<char>>,
    old_request: RequestModel,
    old_key: Seq<char>,
    new_request: RequestModel,
    new_key: Seq<char>,
)
    requires
        configured_key(variable) is None,
        is_fresh_key(new_key),
        old_key != new_key,
        opens_at_most(old_request, old_key),
        sends_only(new_request, new_key),
    ensures
        kept_key(variable, Some(new_key)) matches Some(secret) && !carries_secret(
            old_request,
            secret,
        ) && carries_secret(new_request, secret),
{
    law_written_key_is_kept(variable, new_key);
    law_other_key_is_refused(new_request, new_key, new_key);
}

// ---------------------------------------------------------------------------
// The key
// ---------------------------------------------------------------------------

/// A key from the environment is never blank and has no white space around it.
pub proof fn law_configured_key_is_trimmed(variable: Option<Seq<char>>)
    ensures
        configured_key(variable) matches Some(key) ==> key.len() > 0 && is_trim(key),
{
    if let Some(value) = variable {
        text::lemma_blank_trims_to_nothing(value);
        text::lemma_trimmed_ends(value);
    }
}

/// A fresh key is the prefix and thirty-two lower-case hexadecimal digits, the
/// thirteenth of them a 4. It can be sent in a header and in a query.
pub proof fn law_fresh_key_is_sendable(key: Seq<char>)
    requires
        is_fresh_key(key),
    ensures
        key.len() == 50,
        text::has_prefix(key, "calagopus_mcp_sec_"@),
        forall|i: int|
            18 <= i < 50 ==> ('0' <= #[trigger] key[i] <= '9' || 'a' <= key[i] <= 'f'),
        key[30] == '4',
        is_sendable(key),
        is_queryable(key),
{
    reveal_strlit("calagopus_mcp_sec_");
    reveal_strlit("Bearer ");
    let id = choose|id: u128| ids::is_random_uuid(id) && key == #[trigger] key_text(id);
    let digits = ids::simple_text(id);
    ids::lemma_digits(id);
    assert(key =~= "calagopus_mcp_sec_"@ + digits);
    assert(key.take(18) =~= "calagopus_mcp_sec_"@);
    assert forall|i: int| 18 <= i < 50 implies ('0' <= #[trigger] key[i] <= '9' || 'a' <= key[i]
        <= 'f') by {
        assert(key[i] == digits[i - 18]);
    }
    assert(key[30] == digits[12]);
    if text::has_prefix(key, "Bearer "@) {
        assert(key.take(7)[0] == 'B');
        assert(key[0] == 'c');
    }
}

/// A fresh key that was written to the settings is the key in force from then
/// on, as long as the environment provides none.
pub proof fn law_written_key_is_kept(variable: Option<Seq<char>>, key: Seq<char>)
    requires
        configured_key(variable) is None,
        is_fresh_key(key),
    ensures
        kept_key(variable, Some(key)) == Some(key),
{
    law_fresh_key_is_sendable(key);
    reveal_strlit("calagopus_mcp_sec_");
    assert(key.take(18)[0] == 'c');
    assert(!text::is_space(key[0]));
}

/// The key that the environment provides is in force whatever the settings
/// hold.
pub proof fn law_configured_key_comes_first(
    variable: Option<Seq<char>>,
    stored: Option<Seq<char>>,
)
    requires
        configured_key(variable) is Some,
    ensures
        kept_key(variable, stored) == configured_key(variable),
{
}

/// The stream's address that a client is told with a key lets it in, whichever
/// key is in force, if a query can hold it.
pub proof fn law_told_address_lets_in(request: RequestModel, key: Seq<char>, query: Seq<char>)
    requires
        is_queryable(key),
        stream_url(key) == "/api/extensions/mcp/v1/sse?"@ + query,
        request.query == Some(query),
    ensures
        carries_secret(request, key),
{
    reveal_strlit("/api/extensions/mcp/v1/sse?api_key=");
    reveal_strlit("/api/extensions/mcp/v1/sse?");
    reveal_strlit("api_key");
    let url = stream_url(key);
    let path = "/api/extensions/mcp/v1/sse?"@;
    assert(query =~= url.skip(path.len() as int));
    assert(query =~= "api_key"@ + seq!['='] + key);
    assert(query =~= seq![] + ("api_key"@ + seq!['='] + key) + seq![]);
    law_query_parameter_lets_in(request, seq![], "api_key"@, key, seq![]);
}

/// The example header that a client is told with a key lets it in, whichever key
/// is in force, if a header can hold it.
pub proof fn law_told_header_lets_in(request: RequestModel, key: Seq<char>, value: Seq<char>)
    requires
        is_sendable(key),
        header_example(key) == "Authorization: "@ + value,
        header_text(request.headers, "authorization"@) == Some(value),
    ensures
        carries_secret(request, key),
{
    reveal_strlit("Authorization: Bearer ");
    reveal_strlit("Authorization: ");
    reveal_strlit("Bearer ");
    assert(value =~= header_example(key).skip("Authorization: "@.len() as int));
    assert(value =~= "Bearer "@ + key);
    law_bearer_header_lets_in(request, key);
}

} // verus!
