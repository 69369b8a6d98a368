use vstd::prelude::*;

use crate::text::{copy_string, equals_str, opt_view};

verus! {

/// An information tool reached over HTTP: a GET on `endpoint` with the fixed
/// `params` and the query field `i` in the query string.
#[derive(Clone, Debug)]
pub struct Tool {
    pub id: String,
    pub name: String,
    pub description: String,
    pub endpoint: String,
    pub params: Vec<(String, String)>,
}

/// What a tool answered, with the identifier of the tool.
#[derive(Debug)]
pub struct ToolResponse {
    pub id: String,
    pub response: String,
}

impl ToolResponse {
    /// A copy with the same tool identifier and text.
    pub fn duplicate(&self) -> (r: ToolResponse)
        ensures
            r.id@ == self.id@,
            r.response@ == self.response@,
    {
        ToolResponse { id: copy_string(&self.id), response: copy_string(&self.response) }
    }
}

/// A tool as plain values.
pub struct ToolView {
    pub id: Seq<char>,
    pub endpoint: Seq<char>,
    pub params: Seq<(Seq<char>, Seq<char>)>,
}

pub open spec fn pairs_view(pairs: Seq<(String, String)>) -> Seq<(Seq<char>, Seq<char>)> {
    pairs.map_values(|p: (String, String)| (p.0@, p.1@))
}

impl View for Tool {
    type V = ToolView;

    open spec fn view(&self) -> ToolView {
        ToolView { id: self.id@, endpoint: self.endpoint@, params: pairs_view(self.params@) }
    }
}

pub open spec fn tools_view(tools: Seq<Tool>) -> Seq<ToolView> {
    tools.map_values(|t: Tool| t@)
}

/// The first position at or after `from` of a tool with identifier `id`.
pub open spec fn tool_index_from(tools: Seq<ToolView>, id: Seq<char>, from: int) -> Option<int>
    decreases tools.len() - from,
{
    if from < 0 || from >= tools.len() {
        None
    } else if tools[from].id == id {
        Some(from)
    } else {
        tool_index_from(tools, id, from + 1)
    }
}

/// The position of the first tool with identifier `id`, if there is one.
pub open spec fn tool_index(tools: Seq<ToolView>, id: Seq<char>) -> Option<int> {
    tool_index_from(tools, id, 0)
}

/// The name of the query field that carries the user's text.
pub open spec fn query_key() -> Seq<char> {
    "i"@
}

/// `params` without the pairs whose key is `key`.
pub open spec fn without_key(params: Seq<(Seq<char>, Seq<char>)>, key: Seq<char>) -> Seq<(Seq<char>, Seq<char>)>
    decreases params.len(),
{
    if params.len() == 0 {
        params
    } else if params.last().0 == key {
        without_key(params.drop_last(), key)
    } else {
        without_key(params.drop_last(), key).push(params.last())
    }
}

/// The parameters of a tool request: the fixed ones, then the query field set to `query`.
pub open spec fn request_params(params: Seq<(Seq<char>, Seq<char>)>, query: Seq<char>) -> Seq<
    (Seq<char>, Seq<char>),
> {
    without_key(params, query_key()).push((query_key(), query))
}

/// The `application/x-www-form-urlencoded` serialisation of `pairs`, or `None`
/// where the serialiser refuses them.
pub uninterp spec fn form_encoding(pairs: Seq<(Seq<char>, Seq<char>)>) -> Option<Seq<char>>;

/// Relies on `serde_urlencoded::to_string`: it serialises a sequence of key and
/// value pairs in order, and the text depends on the pairs alone.
#[verifier::external_body]
fn encode_form(pairs: &Vec<(String, String)>) -> (r: Option<String>)
    ensures
        opt_view(r) == form_encoding(pairs_view(pairs@)),
{
    serde_urlencoded::to_string(pairs).ok()
}

/// The position of the first tool of `tools` whose identifier is `id`.
pub fn find_tool(tools: &Vec<Tool>, id: &String) -> (r: Option<usize>)
    ensures
        r matches Some(k) ==> tool_index(tools_view(tools@), id@) == Some(k as int),
        r matches Some(k) ==> k < tools.len() && tools@[k as int].id@ == id@,
        r is None ==> tool_index(tools_view(tools@), id@) is None,
{
    let ghost tv = tools_view(tools@);
    let mut i: usize = 0;
    while i < tools.len()
        invariant
            i <= tools.len(),
            tv == tools_view(tools@),
            tool_index(tv, id@) == tool_index_from(tv, id@, i as int),
        decreases tools.len() - i,
    {
        if tools[i].id.eq(id) {
            return Some(i);
        }
        i = i + 1;
    }
    None
}

/// The fixed parameters, without any earlier query field, followed by the
/// query field set to `query`.
pub fn query_params(params: &Vec<(String, String)>, query: &String) -> (r: Vec<(String, String)>)
    ensures
        pairs_view(r@) == request_params(pairs_view(params@), query@),
{
    let ghost pv = pairs_view(params@);
    let mut out: Vec<(String, String)> = Vec::new();
    let mut i: usize = 0;
    while i < params.len()
        invariant
            i <= params.len(),
            pv == pairs_view(params@),
            pairs_view(out@) == without_key(pv.subrange(0, i as int), query_key()),
        decreases params.len() - i,
    {
        let ghost sub = pv.subrange(0, i + 1);
        proof {
            assert(sub.drop_last() =~= pv.subrange(0, i as int));
            assert(sub.last() == pv[i as int]);
            reveal_strlit("i");
        }
        if !equals_str(&params[i].0, "i") {
            let ghost prev = out@;
            out.push((copy_string(&params[i].0), copy_string(&params[i].1)));
            proof {
                assert(pairs_view(out@) =~= pairs_view(prev).push(pv[i as int]));
            }
        }
        i = i + 1;
    }
    assert(pv.subrange(0, i as int) =~= pv);
    let ghost prev = out@;
    out.push((String::from_str("i"), copy_string(query)));
    assert(pairs_view(out@) =~= pairs_view(prev).push((query_key(), query@)));
    out
}

/// The address of a tool request: the endpoint, a question mark, the query string.
pub fn tool_url(endpoint: &String, query_string: &String) -> (r: String)
    ensures
        r@ == endpoint@ + "?"@ + query_string@,
{
    let mut url = copy_string(endpoint);
    url.append("?");
    url.append(query_string.as_str());
    url
}

/// The address of the request to `tool` with the user's text `query`; `None`
/// where the parameters could not be serialised.
pub fn request_url(tool: &Tool, query: &String) -> (r: Option<String>)
    ensures
        opt_view(r) == match form_encoding(request_params(pairs_view(tool.params@), query@)) {
            Some(q) => Some(tool.endpoint@ + "?"@ + q),
            None => None,
        },
{
    let pairs = query_params(&tool.params, query);
    match encode_form(&pairs) {
        Some(q) => Some(tool_url(&tool.endpoint, &q)),
        None => None,
    }
}

} // verus!
