use vstd::prelude::*;
use vstd::string::StringExecFns;

use crate::mcp_error::{ErrorData, ErrorDataModel, invalid_params_code};
use crate::json::{text_of_json, member, entries_model, items_model, text, Json, JsonModel, JsonNumber, NumberModel};

verus! {

// ---------------------------------------------------------------------------
// Tool names
// ---------------------------------------------------------------------------

/// The lowercase mapping of a character, as `char::to_lowercase` yields it.
pub uninterp spec fn lowercase_of(c: char) -> Seq<char>;

pub open spec fn is_ascii_char(c: char) -> bool {
    (c as u32) < 128
}

/// The ASCII lowercase of a character: `A`..`Z` become `a`..`z`, every other
/// character is kept.
pub open spec fn ascii_lower(c: char) -> char {
    if 'A' <= c <= 'Z' {
        ((c as u32) + 32) as char
    } else {
        c
    }
}

/// The ASCII uppercase of a character: `a`..`z` become `A`..`Z`, every other
/// character is kept.
pub open spec fn ascii_upper(c: char) -> char {
    if 'a' <= c <= 'z' {
        ((c as u32) - 32) as char
    } else {
        c
    }
}

/// What `char::to_lowercase` yields for a character: for an ASCII character
/// its ASCII lowercase, for any other its Unicode lowercase mapping.
pub open spec fn lower_chars(c: char) -> Seq<char> {
    if is_ascii_char(c) {
        seq![ascii_lower(c)]
    } else {
        lowercase_of(c)
    }
}

/// A character that may stand in a normalized tool name: neither `_` nor an
/// ASCII capital.
pub open spec fn is_normalized_char(c: char) -> bool {
    c != '_' && !('A' <= c <= 'Z')
}

/// `char::to_lowercase`, collected into a `String`. Claims that the result
/// depends on `c` alone, and that for an ASCII character it is its ASCII
/// lowercase (Unicode maps `A`..`Z` to `a`..`z` and gives no other ASCII
/// character a lowercase mapping, and the documentation says that a character
/// without one maps to itself). Of other characters it claims only that
/// their mapping holds neither `_` nor an ASCII capital: Unicode's lowercase
/// mappings of non-ASCII characters are lowercase letters or marks, with
/// ASCII `a`..`z` the only ASCII results.
#[verifier::external_body]
fn char_to_lowercase(c: char) -> (r: String)
    ensures
        is_ascii_char(c) ==> r@ == seq![ascii_lower(c)],
        !is_ascii_char(c) ==> r@ == lowercase_of(c),
        !is_ascii_char(c) ==> forall|i: int|
            0 <= i < r@.len() ==> is_normalized_char(#[trigger] r@[i]),
{
    c.to_lowercase().collect()
}

/// The normalized form of a tool name: underscores dropped and every other
/// character lowercased.
pub open spec fn normalized(s: Seq<char>) -> Seq<char>
    decreases s.len(),
{
    if s.len() == 0 {
        Seq::empty()
    } else if s.last() == '_' {
        normalized(s.drop_last())
    } else {
        normalized(s.drop_last()) + lower_chars(s.last())
    }
}

/// Normalize a tool name for lenient matching: lowercase and drop
/// underscores. This lets clients call tools using either Bitcoin Core style
/// (`getblockhash`) or snake_case (`get_block_hash`).
pub fn normalize_tool_name(name: &str) -> (r: String)
    ensures
        r@ == normalized(name@),
        forall|i: int| 0 <= i < r@.len() ==> is_normalized_char(#[trigger] r@[i]),
{
    broadcast use vstd::string::group_string_axioms;

    let mut out = String::new();
    for c in it: name.chars()
        invariant
            it.seq() == name@,
            out@ == normalized(name@.take(it.index() as int)),
            forall|i: int| 0 <= i < out@.len() ==> is_normalized_char(#[trigger] out@[i]),
    {
        assert(name@.take(it.index() + 1).drop_last() =~= name@.take(it.index() as int));
        if c != '_' {
            let lower = char_to_lowercase(c);
            let ghost before = out@;
            out.append(lower.as_str());
            assert forall|i: int| 0 <= i < out@.len() implies is_normalized_char(#[trigger] out@[i]) by {
                if i >= before.len() {
                    assert(out@[i] == lower@[i - before.len()]);
                }
            }
        }
    }
    assert(name@.take(name@.len() as int) =~= name@);
    out
}

pub open spec fn all_ascii(s: Seq<char>) -> bool {
    forall|i: int| 0 <= i < s.len() ==> is_ascii_char(#[trigger] s[i])
}

/// Normalizing a concatenation normalizes each part.
pub proof fn lemma_normalized_concat(a: Seq<char>, b: Seq<char>)
    ensures
        normalized(a + b) == normalized(a) + normalized(b),
    decreases b.len(),
{
    if b.len() == 0 {
        assert(a + b =~= a);
        assert(normalized(a) + normalized(b) =~= normalized(a));
    } else {
        assert((a + b).drop_last() =~= a + b.drop_last());
        assert((a + b).last() == b.last());
        lemma_normalized_concat(a, b.drop_last());
        if b.last() != '_' {
            assert(normalized(a) + normalized(b.drop_last()) + lower_chars(b.last()) =~= normalized(a)
                + (normalized(b.drop_last()) + lower_chars(b.last())));
        }
    }
}

/// Underscores do not matter: inserting one anywhere in a name leaves its
/// normalized form unchanged (so `get_block_hash` and `getblockhash` meet).
pub proof fn lemma_underscores_ignored(s: Seq<char>, i: int)
    requires
        0 <= i <= s.len(),
    ensures
        normalized(s.insert(i, '_')) == normalized(s),
{
    let u = seq!['_'];
    assert(u.drop_last() =~= Seq::<char>::empty());
    assert(normalized(Seq::<char>::empty()) =~= Seq::<char>::empty());
    assert(normalized(u) == Seq::<char>::empty());
    assert(s.insert(i, '_') =~= (s.take(i) + u) + s.skip(i));
    assert(s =~= s.take(i) + s.skip(i));
    lemma_normalized_concat(s.take(i) + u, s.skip(i));
    lemma_normalized_concat(s.take(i), u);
    lemma_normalized_concat(s.take(i), s.skip(i));
    assert(normalized(s.take(i)) + Seq::<char>::empty() =~= normalized(s.take(i)));
}

proof fn lemma_ascii_case_of_char(c: char)
    requires
        is_ascii_char(c),
    ensures
        is_ascii_char(ascii_upper(c)),
        is_ascii_char(ascii_lower(c)),
        ascii_lower(ascii_upper(c)) == ascii_lower(c),
        ascii_lower(ascii_lower(c)) == ascii_lower(c),
        ascii_upper(c) == '_' <==> c == '_',
        ascii_lower(c) == '_' <==> c == '_',
{
}

/// For ASCII names, case does not matter: uppercasing or lowercasing any
/// letters leaves the normalized form unchanged (so `getBlockHash`,
/// `GET_BLOCK_HASH` and `getblockhash` meet).
pub proof fn lemma_ascii_case_ignored(s: Seq<char>)
    requires
        all_ascii(s),
    ensures
        normalized(s.map_values(|c: char| ascii_upper(c))) == normalized(s),
        normalized(s.map_values(|c: char| ascii_lower(c))) == normalized(s),
    decreases s.len(),
{
    if s.len() > 0 {
        let up = s.map_values(|c: char| ascii_upper(c));
        let low = s.map_values(|c: char| ascii_lower(c));
        assert(up.drop_last() =~= s.drop_last().map_values(|c: char| ascii_upper(c)));
        assert(low.drop_last() =~= s.drop_last().map_values(|c: char| ascii_lower(c)));
        assert(is_ascii_char(s[s.len() - 1]));
        lemma_ascii_case_of_char(s.last());
        lemma_ascii_case_ignored(s.drop_last());
    }
}

/// For ASCII names, normalizing twice is normalizing once.
pub proof fn lemma_normalized_idempotent(s: Seq<char>)
    requires
        all_ascii(s),
    ensures
        normalized(normalized(s)) == normalized(s),
    decreases s.len(),
{
    if s.len() > 0 {
        assert(is_ascii_char(s[s.len() - 1]));
        lemma_normalized_idempotent(s.drop_last());
        if s.last() != '_' {
            let c = ascii_lower(s.last());
            lemma_ascii_case_of_char(s.last());
            let one = seq![c];
            assert(one.drop_last() =~= Seq::<char>::empty());
            assert(normalized(Seq::<char>::empty()) =~= Seq::<char>::empty());
            assert(one.last() == c);
            assert(normalized(one) =~= seq![c]);
            lemma_normalized_concat(normalized(s.drop_last()), one);
        }
    }
}

/// For an ASCII name, the normalized form is the name with its underscores
/// removed and its letters lowercased, nothing else.
pub proof fn lemma_ascii_normalized_form(s: Seq<char>)
    requires
        all_ascii(s),
    ensures
        normalized(s) == s.filter(|c: char| c != '_').map_values(|c: char| ascii_lower(c)),
    decreases s.len(),
{
    reveal_with_fuel(Seq::<char>::filter, 1);
    if s.len() == 0 {
        assert(s.filter(|c: char| c != '_') =~= Seq::<char>::empty());
        assert(normalized(s) =~= s.filter(|c: char| c != '_').map_values(|c: char| ascii_lower(c)));
    } else {
        assert(is_ascii_char(s[s.len() - 1]));
        lemma_ascii_normalized_form(s.drop_last());
        let f = s.drop_last().filter(|c: char| c != '_');
        if s.last() != '_' {
            assert(s.filter(|c: char| c != '_') == f.push(s.last()));
            assert(f.push(s.last()).map_values(|c: char| ascii_lower(c)) =~= f.map_values(
                |c: char| ascii_lower(c),
            ) + seq![ascii_lower(s.last())]);
        } else {
            assert(s.filter(|c: char| c != '_') == f);
        }
    }
}

// ---------------------------------------------------------------------------
// Resolving a requested tool
// ---------------------------------------------------------------------------

/// The first route whose normalized name is `wanted`.
pub open spec fn first_normalized_match(routes: Seq<Seq<char>>, wanted: Seq<char>) -> Option<Seq<char>>
    decreases routes.len(),
{
    if routes.len() == 0 {
        None
    } else if normalized(routes[0]) == wanted {
        Some(routes[0])
    } else {
        first_normalized_match(routes.drop_first(), wanted)
    }
}

/// The canonical route for a requested tool name: the name itself when it is
/// a route; otherwise the first route (in the order given) whose normalized
/// name equals the normalized requested name; otherwise none.
pub open spec fn resolve_spec(is_route: bool, routes: Seq<Seq<char>>, requested: Seq<char>) -> Option<
    Seq<char>,
> {
    if is_route {
        Some(requested)
    } else {
        first_normalized_match(routes, normalized(requested))
    }
}

pub open spec fn names(routes: Seq<String>) -> Seq<Seq<char>> {
    routes.map_values(|r: String| r@)
}

/// Resolve a requested tool name to a canonical route. Bitcoin Core style
/// names (`getblockhash`) are canonical, but snake_case and mixed-case
/// variants (`get_block_hash`, `getBlockHash`) are accepted by matching on
/// the normalized form. `is_route` says whether `requested` is itself a
/// route; `routes` lists the routes in the order in which they are tried.
pub fn resolve_tool_name(is_route: bool, routes: &Vec<String>, requested: &String) -> (r: Option<
    String,
>)
    ensures
        match r {
            Some(name) => resolve_spec(is_route, names(routes@), requested@) == Some(name@),
            None => resolve_spec(is_route, names(routes@), requested@) is None,
        },
{
    if is_route {
        return Some(requested.clone());
    }
    let wanted = normalize_tool_name(requested.as_str());
    let ghost all = names(routes@);
    assert(all.subrange(0, all.len() as int) =~= all);
    let mut i: usize = 0;
    while i < routes.len()
        invariant
            !is_route,
            i <= routes@.len(),
            all == names(routes@),
            wanted@ == normalized(requested@),
            first_normalized_match(all, wanted@) == first_normalized_match(
                all.subrange(i as int, all.len() as int),
                wanted@,
            ),
        decreases routes@.len() - i,
    {
        assert(all.subrange(i as int, all.len() as int).drop_first() =~= all.subrange(
            i + 1,
            all.len() as int,
        ));
        assert(all[i as int] == routes@[i as int]@);
        assert(all.subrange(i as int, all.len() as int)[0] == all[i as int]);
        let candidate = normalize_tool_name(routes[i].as_str());
        if candidate == wanted {
            return Some(routes[i].clone());
        }
        i = i + 1;
    }
    None
}

/// Where the resolution lands: an exact route is always taken as it is; a
/// name resolved by normalization is one of the routes and has the same
/// normalized form as the request; and nothing is resolved only when no
/// route has that normalized form.
pub proof fn lemma_resolution_is_sound(is_route: bool, routes: Seq<Seq<char>>, requested: Seq<char>)
    ensures
        is_route ==> resolve_spec(is_route, routes, requested) == Some(requested),
        !is_route ==> match resolve_spec(is_route, routes, requested) {
            Some(name) => routes.contains(name) && normalized(name) == normalized(requested),
            None => forall|i: int|
                0 <= i < routes.len() ==> normalized(#[trigger] routes[i]) != normalized(requested),
        },
    decreases routes.len(),
{
    if !is_route && routes.len() > 0 {
        lemma_resolution_is_sound(false, routes.drop_first(), requested);
        match resolve_spec(false, routes, requested) {
            Some(name) => {
                if normalized(routes[0]) != normalized(requested) {
                    let k = choose|k: int| 0 <= k < routes.drop_first().len() && routes.drop_first()[k] == name;
                    assert(routes[k + 1] == name);
                }
            },
            None => {
                assert forall|i: int| 0 <= i < routes.len() implies normalized(#[trigger] routes[i])
                    != normalized(requested) by {
                    if i > 0 {
                        assert(routes[i] == routes.drop_first()[i - 1]);
                    }
                }
            },
        }
    }
}

/// A name resolved by normalization is the first route, in the order
/// given, whose normalized form is that of the request.
pub proof fn lemma_resolution_takes_first_match(routes: Seq<Seq<char>>, requested: Seq<char>)
    ensures
        resolve_spec(false, routes, requested) matches Some(name) ==> exists|i: int|
            0 <= i < routes.len() && routes[i] == name && normalized(routes[i]) == normalized(
                requested,
            ) && forall|j: int|
                0 <= j < i ==> normalized(#[trigger] routes[j]) != normalized(requested),
    decreases routes.len(),
{
    if routes.len() > 0 && normalized(routes[0]) != normalized(requested) {
        let rest = routes.drop_first();
        lemma_resolution_takes_first_match(rest, requested);
        if let Some(name) = resolve_spec(false, routes, requested) {
            let i = choose|i: int|
                0 <= i < rest.len() && rest[i] == name && normalized(rest[i]) == normalized(
                    requested,
                ) && forall|j: int| 0 <= j < i ==> normalized(#[trigger] rest[j]) != normalized(requested);
            assert(routes[i + 1] == rest[i]);
            assert forall|j: int| 0 <= j < i + 1 implies normalized(#[trigger] routes[j])
                != normalized(requested) by {
                if j > 0 {
                    assert(routes[j] == rest[j - 1]);
                }
            }
        }
    }
}

/// The "tool not found" error is an "invalid params" error (-32602) whose
/// message is `tool not found: ` followed by the requested name, and whose
/// data is `{"tool": requested}`.
pub proof fn lemma_tool_not_found(requested: Seq<char>)
    ensures
        tool_not_found_model(requested).code == -32602,
        tool_not_found_model(requested).message == "tool not found: "@ + requested,
        tool_not_found_model(requested).data == Some(
            JsonModel::Object(seq![("tool"@, JsonModel::Str(requested))]),
        ),
{
}

/// The error for a tool name that resolves to no route: "invalid params",
/// naming the requested tool in the message and in the data.
pub open spec fn tool_not_found_model(requested: Seq<char>) -> ErrorDataModel {
    ErrorDataModel {
        code: invalid_params_code(),
        message: "tool not found: "@ + requested,
        data: Some(JsonModel::Object(seq![("tool"@, JsonModel::Str(requested))])),
    }
}

pub fn tool_not_found(requested: &String) -> (e: ErrorData)
    ensures
        e.model() == tool_not_found_model(requested@),
{
    let message = text("tool not found: ").concat(requested.as_str());
    let entries = vec![(text("tool"), Json::String(requested.clone()))];
    assert(entries_model(entries@) =~= seq![("tool"@, JsonModel::Str(requested@))]);
    ErrorData::invalid_params(message, Some(Json::Object(entries)))
}

/// Route a tool call: the canonical route name, or the "tool not found"
/// error when the requested name resolves to no route.
pub fn route_tool_call(is_route: bool, routes: &Vec<String>, requested: &String) -> (r: Result<
    String,
    ErrorData,
>)
    ensures
        match r {
            Ok(name) => resolve_spec(is_route, names(routes@), requested@) == Some(name@),
            Err(e) => resolve_spec(is_route, names(routes@), requested@) is None && e.model()
                == tool_not_found_model(requested@),
        },
{
    match resolve_tool_name(is_route, routes, requested) {
        Some(name) => Ok(name),
        None => Err(tool_not_found(requested)),
    }
}

// ---------------------------------------------------------------------------
// The tools
// ---------------------------------------------------------------------------

/// A call of one of the tools, with its parameters.
pub enum ToolCall {
    /// `getblockchaininfo`: current blockchain state.
    GetBlockchainInfo,
    /// `getnetworkinfo`: network state, redacted.
    GetNetworkInfo,
    /// `getblock`: a block by hash; verbosity 0 = hex, 1 = json (default),
    /// 2 = json with transaction details.
    GetBlock { blockhash: String, verbosity: Option<u8> },
    /// `getblockcount`: the height of the most-work fully-validated chain.
    GetBlockCount,
    /// `getblockhash`: the block hash at a height.
    GetBlockHash { height: u64 },
    /// `getrawmempool`: mempool transaction ids, or details when verbose
    /// (default: not verbose).
    GetRawMempool { verbose: Option<bool> },
    /// `getrawtransaction`: a transaction by txid (verbosity default 1),
    /// optionally looked up in a given block.
    GetRawTransaction { txid: String, verbosity: Option<u8>, blockhash: Option<String> },
    /// `getblock_verbose`: a variant of `getblock`.
    GetBlockVerbose { blockhash: String, verbosity: Option<u8> },
    /// `getblockheader`: a block header by hash, decoded (default) or hex.
    GetBlockHeader { blockhash: String, verbose: Option<bool> },
    /// `getblockheader_hex`: the raw hex block header by hash.
    GetBlockHeaderHex { blockhash: String },
    /// `getblockfilter`: the BIP157 filter of a block (default type "basic").
    GetBlockFilter { blockhash: String, filtertype: Option<String> },
}

/// A bitcoind RPC call: the method and its positional parameters.
pub struct RpcRequest {
    pub method: String,
    pub params: Vec<Json>,
}

pub open spec fn small_number(v: u64) -> JsonModel {
    JsonModel::Number(NumberModel::PosInt(v))
}

/// The bitcoind call that a tool call makes.
pub open spec fn tool_request_spec(call: ToolCall) -> (Seq<char>, Seq<JsonModel>) {
    match call {
        ToolCall::GetBlockchainInfo => ("getblockchaininfo"@, seq![]),
        ToolCall::GetNetworkInfo => ("getnetworkinfo"@, seq![]),
        ToolCall::GetBlock { blockhash, verbosity } => (
            "getblock"@,
            seq![JsonModel::Str(blockhash@), small_number(verbosity.unwrap_or(1u8) as u64)],
        ),
        ToolCall::GetBlockCount => ("getblockcount"@, seq![]),
        ToolCall::GetBlockHash { height } => ("getblockhash"@, seq![small_number(height)]),
        ToolCall::GetRawMempool { verbose } => (
            "getrawmempool"@,
            seq![JsonModel::Bool(verbose.unwrap_or(false))],
        ),
        ToolCall::GetRawTransaction { txid, verbosity, blockhash } => (
            "getrawtransaction"@,
            match blockhash {
                Some(bh) => seq![
                    JsonModel::Str(txid@),
                    small_number(verbosity.unwrap_or(1u8) as u64),
                    JsonModel::Str(bh@),
                ],
                None => seq![JsonModel::Str(txid@), small_number(verbosity.unwrap_or(1u8) as u64)],
            },
        ),
        ToolCall::GetBlockVerbose { blockhash, verbosity } => (
            "getblock"@,
            seq![JsonModel::Str(blockhash@), small_number(verbosity.unwrap_or(1u8) as u64)],
        ),
        ToolCall::GetBlockHeader { blockhash, verbose } => (
            "getblockheader"@,
            seq![JsonModel::Str(blockhash@), JsonModel::Bool(verbose.unwrap_or(true))],
        ),
        ToolCall::GetBlockHeaderHex { blockhash } => (
            "getblockheader"@,
            seq![JsonModel::Str(blockhash@), JsonModel::Bool(false)],
        ),
        ToolCall::GetBlockFilter { blockhash, filtertype } => (
            "getblockfilter"@,
            seq![
                JsonModel::Str(blockhash@),
                JsonModel::Str(
                    match filtertype {
                        Some(f) => f@,
                        None => "basic"@,
                    },
                ),
            ],
        ),
    }
}

fn verbosity_or_json(verbosity: Option<u8>) -> (r: Json)
    ensures
        r.model() == small_number(verbosity.unwrap_or(1u8) as u64),
{
    match verbosity {
        Some(v) => Json::Number(JsonNumber::PosInt(v as u64)),
        None => Json::Number(JsonNumber::PosInt(1)),
    }
}

/// The bitcoind call that a tool call makes, with the tool's defaults
/// filled in.
pub fn tool_request(call: &ToolCall) -> (r: RpcRequest)
    ensures
        (r.method@, items_model(r.params@)) == tool_request_spec(*call),
{
    let (method, params): (String, Vec<Json>) = match call {
        ToolCall::GetBlockchainInfo => (text("getblockchaininfo"), vec![]),
        ToolCall::GetNetworkInfo => (text("getnetworkinfo"), vec![]),
        ToolCall::GetBlock { blockhash, verbosity } => (
            text("getblock"),
            vec![Json::String(blockhash.clone()), verbosity_or_json(*verbosity)],
        ),
        ToolCall::GetBlockCount => (text("getblockcount"), vec![]),
        ToolCall::GetBlockHash { height } => (
            text("getblockhash"),
            vec![Json::Number(JsonNumber::PosInt(*height))],
        ),
        ToolCall::GetRawMempool { verbose } => (
            text("getrawmempool"),
            vec![Json::Bool(verbose.unwrap_or(false))],
        ),
        ToolCall::GetRawTransaction { txid, verbosity, blockhash } => {
            let mut p = vec![Json::String(txid.clone()), verbosity_or_json(*verbosity)];
            match blockhash {
                Some(bh) => p.push(Json::String(bh.clone())),
                None => {},
            }
            (text("getrawtransaction"), p)
        },
        ToolCall::GetBlockVerbose { blockhash, verbosity } => (
            text("getblock"),
            vec![Json::String(blockhash.clone()), verbosity_or_json(*verbosity)],
        ),
        ToolCall::GetBlockHeader { blockhash, verbose } => (
            text("getblockheader"),
            vec![Json::String(blockhash.clone()), Json::Bool(verbose.unwrap_or(true))],
        ),
        ToolCall::GetBlockHeaderHex { blockhash } => (
            text("getblockheader"),
            vec![Json::String(blockhash.clone()), Json::Bool(false)],
        ),
        ToolCall::GetBlockFilter { blockhash, filtertype } => {
            let f = match filtertype {
                Some(f) => f.clone(),
                None => text("basic"),
            };
            (text("getblockfilter"), vec![Json::String(blockhash.clone()), Json::String(f)])
        },
    };
    assert(items_model(params@) =~= tool_request_spec(*call).1);
    RpcRequest { method, params }
}

/// `getblock` and `getblock_verbose` ask bitcoind for the block with the
/// given hash at the requested verbosity, and at verbosity 1 (decoded JSON)
/// only when none is requested.
pub proof fn lemma_getblock_request(blockhash: String, verbosity: Option<u8>)
    ensures
        ({
            let expected = seq![
                JsonModel::Str(blockhash@),
                JsonModel::Number(NumberModel::PosInt(
                    match verbosity {
                        Some(v) => v as u64,
                        None => 1u64,
                    },
                )),
            ];
            &&& tool_request_spec(ToolCall::GetBlock { blockhash, verbosity }) == ("getblock"@, expected)
            &&& tool_request_spec(ToolCall::GetBlockVerbose { blockhash, verbosity }) == (
                "getblock"@,
                expected,
            )
        }),
{
}

/// `getrawmempool` passes the verbose flag as asked, and `false` (txids
/// only) when it is not given.
pub proof fn lemma_getrawmempool_request(verbose: Option<bool>)
    ensures
        tool_request_spec(ToolCall::GetRawMempool { verbose }) == (
            "getrawmempool"@,
            seq![
                JsonModel::Bool(
                    match verbose {
                        Some(b) => b,
                        None => false,
                    },
                ),
            ],
        ),
{
}

/// `getrawtransaction` passes the txid, the requested verbosity (1 when none
/// is given) and, only when one is given, the block hash to look in.
pub proof fn lemma_getrawtransaction_request(
    txid: String,
    verbosity: Option<u8>,
    blockhash: Option<String>,
)
    ensures
        ({
            let (method, params) = tool_request_spec(
                ToolCall::GetRawTransaction { txid, verbosity, blockhash },
            );
            let v = match verbosity {
                Some(v) => v as u64,
                None => 1u64,
            };
            &&& method == "getrawtransaction"@
            &&& params.len() == if blockhash is Some { 3int } else { 2int }
            &&& params[0] == JsonModel::Str(txid@)
            &&& params[1] == JsonModel::Number(NumberModel::PosInt(v))
            &&& blockhash matches Some(bh) ==> params[2] == JsonModel::Str(bh@)
        }),
{
}

/// `getblockheader` asks for the decoded header unless `verbose` is false,
/// `getblockheader_hex` always for the raw hex header.
pub proof fn lemma_getblockheader_requests(blockhash: String, verbose: Option<bool>)
    ensures
        tool_request_spec(ToolCall::GetBlockHeader { blockhash, verbose }) == (
            "getblockheader"@,
            seq![
                JsonModel::Str(blockhash@),
                JsonModel::Bool(
                    match verbose {
                        Some(b) => b,
                        None => true,
                    },
                ),
            ],
        ),
        tool_request_spec(ToolCall::GetBlockHeaderHex { blockhash }) == (
            "getblockheader"@,
            seq![JsonModel::Str(blockhash@), JsonModel::Bool(false)],
        ),
{
}

/// `getblockfilter` passes the filter type as asked, and `basic` when none
/// is given; `getblockhash` passes the height.
pub proof fn lemma_getblockfilter_and_getblockhash_requests(
    blockhash: String,
    filtertype: Option<String>,
    height: u64,
)
    ensures
        tool_request_spec(ToolCall::GetBlockFilter { blockhash, filtertype }) == (
            "getblockfilter"@,
            seq![
                JsonModel::Str(blockhash@),
                JsonModel::Str(
                    match filtertype {
                        Some(f) => f@,
                        None => "basic"@,
                    },
                ),
            ],
        ),
        tool_request_spec(ToolCall::GetBlockHash { height }) == (
            "getblockhash"@,
            seq![JsonModel::Number(NumberModel::PosInt(height))],
        ),
{
}

/// The tools without parameters call the bitcoind method of the same name
/// with no parameters.
pub proof fn lemma_parameterless_requests()
    ensures
        tool_request_spec(ToolCall::GetBlockchainInfo) == ("getblockchaininfo"@, Seq::<JsonModel>::empty()),
        tool_request_spec(ToolCall::GetNetworkInfo) == ("getnetworkinfo"@, Seq::<JsonModel>::empty()),
        tool_request_spec(ToolCall::GetBlockCount) == ("getblockcount"@, Seq::<JsonModel>::empty()),
{
    assert(seq![] =~= Seq::<JsonModel>::empty());
}

/// What a tool hands back for the node's result: `getnetworkinfo` is
/// redacted, every other tool returns the result as it came.
pub fn tool_output(call: &ToolCall, result: Json) -> (r: Json)
    ensures
        r.model() == if *call is GetNetworkInfo {
            redact_model(result.model())
        } else {
            result.model()
        },
{
    match call {
        ToolCall::GetNetworkInfo => redact_network_info(result),
        _ => result,
    }
}

/// What a tool hands back to the client: the compact JSON text of its
/// output.
pub fn tool_text(call: &ToolCall, result: Json) -> (r: String)
    ensures
        r@ == text_of_json(
            if *call is GetNetworkInfo {
                redact_model(result.model())
            } else {
                result.model()
            },
        ),
{
    tool_output(call, result).to_text()
}

// ---------------------------------------------------------------------------
// Redacting `getnetworkinfo`
// ---------------------------------------------------------------------------

/// Members of `getnetworkinfo` that count peers or reveal the clock offset:
/// they are reported as `0`.
pub open spec fn is_counter_key(k: Seq<char>) -> bool {
    ||| k == "connections"@
    ||| k == "connections_in"@
    ||| k == "connections_out"@
    ||| k == "timeoffset"@
}

/// A member of one entry of `networks`, with its proxy settings blanked.
pub open spec fn redact_network_member(k: Seq<char>, v: JsonModel) -> JsonModel {
    if k == "proxy"@ {
        JsonModel::Str(Seq::empty())
    } else if k == "proxy_randomize_credentials"@ {
        JsonModel::Bool(false)
    } else {
        v
    }
}

/// One entry of `networks`, redacted; an entry that is not an object is
/// left as it is.
pub open spec fn redact_network(n: JsonModel) -> JsonModel {
    match n {
        JsonModel::Object(es) => JsonModel::Object(
            es.map_values(|e: (Seq<char>, JsonModel)| (e.0, redact_network_member(e.0, e.1))),
        ),
        _ => n,
    }
}

/// A top-level member of `getnetworkinfo`, redacted.
pub open spec fn redact_member(k: Seq<char>, v: JsonModel) -> JsonModel {
    if k == "localaddresses"@ {
        JsonModel::Array(Seq::empty())
    } else if k == "networks"@ {
        match v {
            JsonModel::Array(ns) => JsonModel::Array(ns.map_values(|n: JsonModel| redact_network(n))),
            _ => v,
        }
    } else if is_counter_key(k) {
        JsonModel::Number(NumberModel::PosInt(0))
    } else if k == "subversion"@ {
        JsonModel::Str(Seq::empty())
    } else {
        v
    }
}

/// A `getnetworkinfo` reply with everything that identifies the host blanked;
/// a reply that is not an object is left as it is.
pub open spec fn redact_model(info: JsonModel) -> JsonModel {
    match info {
        JsonModel::Object(es) => JsonModel::Object(
            es.map_values(|e: (Seq<char>, JsonModel)| (e.0, redact_member(e.0, e.1))),
        ),
        _ => info,
    }
}

fn redact_network_exec(n: Json) -> (r: Json)
    ensures
        r.model() == redact_network(n.model()),
{
    match n {
        Json::Object(entries) => {
            let ghost old_entries = entries@;
            let mut out: Vec<(String, Json)> = Vec::new();
            for e in it: entries.into_iter()
                invariant
                    it.seq() == old_entries,
                    out@.len() == it.index(),
                    forall|j: int|
                        0 <= j < it.index() ==> (#[trigger] out@[j]).0@ == old_entries[j].0@
                            && out@[j].1.model() == redact_network_member(
                            old_entries[j].0@,
                            old_entries[j].1.model(),
                        ),
            {
                let (k, v) = e;
                let nv = if k == text("proxy") {
                    Json::String(String::new())
                } else if k == text("proxy_randomize_credentials") {
                    Json::Bool(false)
                } else {
                    v
                };
                out.push((k, nv));
            }
            let r = Json::Object(out);
            assert(entries_model(out@) =~= entries_model(old_entries).map_values(
                |e: (Seq<char>, JsonModel)| (e.0, redact_network_member(e.0, e.1)),
            ));
            r
        },
        other => other,
    }
}

fn redact_member_exec(k: &String, v: Json) -> (r: Json)
    ensures
        r.model() == redact_member(k@, v.model()),
{
    if *k == text("localaddresses") {
        let empty: Vec<Json> = Vec::new();
        assert(items_model(empty@) =~= Seq::empty());
        Json::Array(empty)
    } else if *k == text("networks") {
        match v {
            Json::Array(items) => {
                let ghost old_items = items@;
                let mut out: Vec<Json> = Vec::new();
                for n in it: items.into_iter()
                    invariant
                        it.seq() == old_items,
                        out@.len() == it.index(),
                        forall|j: int|
                            0 <= j < it.index() ==> (#[trigger] out@[j]).model() == redact_network(
                                old_items[j].model(),
                            ),
                {
                    out.push(redact_network_exec(n));
                }
                assert(items_model(out@) =~= items_model(old_items).map_values(
                    |n: JsonModel| redact_network(n),
                ));
                Json::Array(out)
            },
            other => other,
        }
    } else if *k == text("connections") || *k == text("connections_in") || *k == text(
        "connections_out",
    ) || *k == text("timeoffset") {
        Json::Number(JsonNumber::PosInt(0))
    } else if *k == text("subversion") {
        Json::String(String::new())
    } else {
        v
    }
}

/// Strip host-identifying data from a `getnetworkinfo` reply.
///
/// The node's own addresses become an empty list, the proxy settings of each
/// network are blanked, the peer counts and the clock offset become `0`, and
/// the user agent becomes the empty string. Values are blanked rather than
/// removed, so the reply keeps the shape that Bitcoin Core clients expect;
/// no member is added or removed.
pub fn redact_network_info(info: Json) -> (r: Json)
    ensures
        r.model() == redact_model(info.model()),
{
    match info {
        Json::Object(entries) => {
            let ghost old_entries = entries@;
            let mut out: Vec<(String, Json)> = Vec::new();
            for e in it: entries.into_iter()
                invariant
                    it.seq() == old_entries,
                    out@.len() == it.index(),
                    forall|j: int|
                        0 <= j < it.index() ==> (#[trigger] out@[j]).0@ == old_entries[j].0@
                            && out@[j].1.model() == redact_member(
                            old_entries[j].0@,
                            old_entries[j].1.model(),
                        ),
            {
                let (k, v) = e;
                let nv = redact_member_exec(&k, v);
                out.push((k, nv));
            }
            assert(entries_model(out@) =~= entries_model(old_entries).map_values(
                |e: (Seq<char>, JsonModel)| (e.0, redact_member(e.0, e.1)),
            ));
            Json::Object(out)
        },
        other => other,
    }
}

/// Looking a member up in a list whose values were rewritten by `f`, key by
/// key, gives the rewritten value of the member found in the list as it was.
proof fn lemma_member_of_rewritten(
    es: Seq<(Seq<char>, JsonModel)>,
    f: spec_fn(Seq<char>, JsonModel) -> JsonModel,
    key: Seq<char>,
)
    ensures
        member(es.map_values(|e: (Seq<char>, JsonModel)| (e.0, f(e.0, e.1))), key) == match member(
            es,
            key,
        ) {
            Some(v) => Some(f(key, v)),
            None => None,
        },
    decreases es.len(),
{
    let g = |e: (Seq<char>, JsonModel)| (e.0, f(e.0, e.1));
    if es.len() > 0 {
        assert(es.map_values(g).drop_first() =~= es.drop_first().map_values(g));
        lemma_member_of_rewritten(es.drop_first(), f, key);
    }
}

/// Redaction keeps the shape of the reply: an object keeps the same member
/// names in the same order, the `networks` list keeps its length and each of
/// its entries is redacted on its own (which keeps that entry's member names,
/// see `lemma_network_entry_keeps_shape`), and a reply that is not an object
/// is returned unchanged.
pub proof fn lemma_redaction_keeps_shape(info: JsonModel)
    ensures
        !(info is Object) ==> redact_model(info) == info,
        info matches JsonModel::Object(es) ==> {
            &&& redact_model(info) matches JsonModel::Object(rs)
            &&& rs.len() == es.len()
            &&& forall|i: int| 0 <= i < es.len() ==> (#[trigger] rs[i]).0 == es[i].0
        },
        info.get("networks"@) matches Some(JsonModel::Array(ns)) ==> {
            &&& redact_model(info).get("networks"@) matches Some(JsonModel::Array(rns))
            &&& rns.len() == ns.len()
            &&& forall|i: int| 0 <= i < ns.len() ==> #[trigger] rns[i] == redact_network(ns[i])
        },
{
    reveal_strlit("networks");
    reveal_strlit("localaddresses");
    assert("networks"@.len() != "localaddresses"@.len());
    if let JsonModel::Object(es) = info {
        lemma_member_of_rewritten(es, |k: Seq<char>, v: JsonModel| redact_member(k, v), "networks"@);
        assert(es.map_values(|e: (Seq<char>, JsonModel)| (e.0, redact_member(e.0, e.1)))
            =~= es.map_values(|e: (Seq<char>, JsonModel)| (e.0, (|k: Seq<char>, v: JsonModel| redact_member(k, v))(e.0, e.1))));
    }
}

/// Looking up any member of a redacted reply gives the redacted value of
/// that member in the reply as it came: in particular a member that was
/// missing stays missing, and a member that is not named in the redaction
/// rules keeps its value.
pub proof fn lemma_redaction_lookup(info: JsonModel, key: Seq<char>)
    ensures
        redact_model(info).get(key) == match info.get(key) {
            Some(v) => Some(redact_member(key, v)),
            None => None,
        },
{
    if let JsonModel::Object(es) = info {
        let f = |k: Seq<char>, v: JsonModel| redact_member(k, v);
        lemma_member_of_rewritten(es, f, key);
        assert(es.map_values(|e: (Seq<char>, JsonModel)| (e.0, redact_member(e.0, e.1)))
            =~= es.map_values(|e: (Seq<char>, JsonModel)| (e.0, f(e.0, e.1))));
    }
}

/// Redacting one entry of `networks` keeps its member names in order; an
/// entry that is not an object is left unchanged.
pub proof fn lemma_network_entry_keeps_shape(n: JsonModel)
    ensures
        !(n is Object) ==> redact_network(n) == n,
        n matches JsonModel::Object(es) ==> {
            &&& redact_network(n) matches JsonModel::Object(rs)
            &&& rs.len() == es.len()
            &&& forall|i: int| 0 <= i < es.len() ==> (#[trigger] rs[i]).0 == es[i].0
        },
{
}

/// Redaction hides what identifies the host: the redacted values of
/// `localaddresses`, of the peer counts and clock offset, and of
/// `subversion` do not depend on what the node reported, and neither do the
/// redacted `proxy` and `proxy_randomize_credentials` of a network entry.
pub proof fn lemma_redaction_hides_identifying_values(k: Seq<char>, v1: JsonModel, v2: JsonModel)
    ensures
        k == "localaddresses"@ || is_counter_key(k) || k == "subversion"@ ==> redact_member(k, v1)
            == redact_member(k, v2),
        k == "proxy"@ || k == "proxy_randomize_credentials"@ ==> redact_network_member(k, v1)
            == redact_network_member(k, v2),
{
    reveal_strlit("networks");
    reveal_strlit("connections");
    reveal_strlit("connections_in");
    reveal_strlit("connections_out");
    reveal_strlit("timeoffset");
    reveal_strlit("subversion");
    assert("networks"@.len() != "connections"@.len());
    assert("networks"@.len() != "connections_in"@.len());
    assert("networks"@.len() != "connections_out"@.len());
    assert("networks"@.len() != "timeoffset"@.len());
    assert("networks"@.len() != "subversion"@.len());
}

/// Redacting one entry of `networks` blanks `proxy` to `""` and
/// `proxy_randomize_credentials` to `false`, keeps every other member and
/// the order of members, and leaves an entry that is not an object as it is.
pub proof fn lemma_network_entry_changes_only_proxy(n: JsonModel)
    ensures
        !(n is Object) ==> redact_network(n) == n,
        n is Object ==> ({
            let es = n->Object_0;
            let rs = redact_network(n)->Object_0;
            &&& redact_network(n) is Object
            &&& rs.len() == es.len()
            &&& forall|m: int| 0 <= m < es.len() ==> (#[trigger] rs[m]).0 == es[m].0
            &&& forall|m: int|
                0 <= m < es.len() && es[m].0 == "proxy"@ ==> (#[trigger] rs[m]).1 == JsonModel::Str(
                    Seq::empty(),
                )
            &&& forall|m: int|
                0 <= m < es.len() && es[m].0 == "proxy_randomize_credentials"@ ==> (#[trigger] rs[m]).1
                    == JsonModel::Bool(false)
            &&& forall|m: int|
                0 <= m < es.len() && es[m].0 != "proxy"@ && es[m].0
                    != "proxy_randomize_credentials"@ ==> (#[trigger] rs[m]).1 == es[m].1
        }),
{
    reveal_strlit("proxy");
    reveal_strlit("proxy_randomize_credentials");
    assert("proxy"@.len() != "proxy_randomize_credentials"@.len());
}

/// Redaction changes nothing it does not name. In an object reply every
/// member keeps its name and place; `localaddresses` becomes `[]`,
/// `connections`, `connections_in`, `connections_out` and `timeoffset`
/// become `0`, `subversion` becomes `""`; a `networks` list keeps its length
/// and has each entry redacted on its own (see
/// `lemma_network_entry_changes_only_proxy`), while a `networks` member that
/// is not a list is kept; every other member keeps its value. A reply that is
/// not an object is returned as it is.
pub proof fn lemma_redaction_changes_only_what_it_names(info: JsonModel)
    ensures
        !(info is Object) ==> redact_model(info) == info,
        info is Object ==> ({
            let es = info->Object_0;
            let rs = redact_model(info)->Object_0;
            &&& redact_model(info) is Object
            &&& rs.len() == es.len()
            &&& forall|i: int| 0 <= i < es.len() ==> (#[trigger] rs[i]).0 == es[i].0
            &&& forall|i: int|
                0 <= i < es.len() && es[i].0 != "localaddresses"@ && es[i].0 != "networks"@
                    && es[i].0 != "connections"@ && es[i].0 != "connections_in"@ && es[i].0
                    != "connections_out"@ && es[i].0 != "timeoffset"@ && es[i].0 != "subversion"@
                    ==> (#[trigger] rs[i]).1 == es[i].1
            &&& forall|i: int|
                0 <= i < es.len() && es[i].0 == "localaddresses"@ ==> (#[trigger] rs[i]).1
                    == JsonModel::Array(Seq::empty())
            &&& forall|i: int|
                0 <= i < es.len() && (es[i].0 == "connections"@ || es[i].0 == "connections_in"@
                    || es[i].0 == "connections_out"@ || es[i].0 == "timeoffset"@)
                    ==> (#[trigger] rs[i]).1 == JsonModel::Number(NumberModel::PosInt(0))
            &&& forall|i: int|
                0 <= i < es.len() && es[i].0 == "subversion"@ ==> (#[trigger] rs[i]).1 == JsonModel::Str(
                    Seq::empty(),
                )
            &&& forall|i: int|
                0 <= i < es.len() && es[i].0 == "networks"@ && !(es[i].1 is Array) ==> (#[trigger] rs[i]).1
                    == es[i].1
            &&& forall|i: int|
                0 <= i < es.len() && es[i].0 == "networks"@ && es[i].1 is Array ==> {
                    &&& (#[trigger] rs[i]).1 is Array
                    &&& rs[i].1->Array_0.len() == es[i].1->Array_0.len()
                    &&& forall|j: int|
                        0 <= j < es[i].1->Array_0.len() ==> #[trigger] rs[i].1->Array_0[j]
                            == redact_network(es[i].1->Array_0[j])
                }
        }),
{
    reveal_strlit("localaddresses");
    reveal_strlit("networks");
    reveal_strlit("connections");
    reveal_strlit("connections_in");
    reveal_strlit("connections_out");
    reveal_strlit("timeoffset");
    reveal_strlit("subversion");
    assert("networks"@.len() != "localaddresses"@.len());
    assert("connections"@.len() != "localaddresses"@.len());
    assert("connections_in"@[0] != "localaddresses"@[0]);
    assert("connections_out"@.len() != "localaddresses"@.len());
    assert("timeoffset"@.len() != "localaddresses"@.len());
    assert("subversion"@.len() != "localaddresses"@.len());
    assert("connections"@.len() != "networks"@.len());
    assert("connections_in"@.len() != "networks"@.len());
    assert("connections_out"@.len() != "networks"@.len());
    assert("timeoffset"@.len() != "networks"@.len());
    assert("subversion"@.len() != "networks"@.len());
    assert("subversion"@.len() != "connections"@.len());
    assert("subversion"@.len() != "connections_in"@.len());
    assert("subversion"@.len() != "connections_out"@.len());
    assert("subversion"@[0] != "timeoffset"@[0]);
}

proof fn lemma_redact_network_idempotent(n: JsonModel)
    ensures
        redact_network(redact_network(n)) == redact_network(n),
{
    if let JsonModel::Object(es) = n {
        let once = es.map_values(
            |e: (Seq<char>, JsonModel)| (e.0, redact_network_member(e.0, e.1)),
        );
        let twice = once.map_values(
            |e: (Seq<char>, JsonModel)| (e.0, redact_network_member(e.0, e.1)),
        );
        assert(twice =~= once);
    }
}

proof fn lemma_redact_member_idempotent(k: Seq<char>, v: JsonModel)
    ensures
        redact_member(k, redact_member(k, v)) == redact_member(k, v),
{
    if k != "localaddresses"@ && k == "networks"@ {
        if let JsonModel::Array(ns) = v {
            let once = ns.map_values(|n: JsonModel| redact_network(n));
            let twice = once.map_values(|n: JsonModel| redact_network(n));
            assert forall|i: int| 0 <= i < once.len() implies twice[i] == once[i] by {
                lemma_redact_network_idempotent(ns[i]);
            }
            assert(twice =~= once);
        }
    }
}

/// Redacting an already redacted reply changes nothing.
pub proof fn lemma_redaction_idempotent(info: JsonModel)
    ensures
        redact_model(redact_model(info)) == redact_model(info),
{
    if let JsonModel::Object(es) = info {
        let once = es.map_values(|e: (Seq<char>, JsonModel)| (e.0, redact_member(e.0, e.1)));
        let twice = once.map_values(|e: (Seq<char>, JsonModel)| (e.0, redact_member(e.0, e.1)));
        assert forall|i: int| 0 <= i < once.len() implies twice[i] == once[i] by {
            lemma_redact_member_idempotent(es[i].0, es[i].1);
        }
        assert(twice =~= once);
    }
}

} // verus!
