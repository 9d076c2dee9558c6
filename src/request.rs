//! Request assembly: the client's configuration, the parameter list of a
//! request, and the builder that accumulates optional parameters.
use vstd::prelude::*;
use std::marker::PhantomData;
use crate::json::owned;
use crate::response::{classified, classify, ClientError, RecentTracks};

verus! {

/// The decimal text of a digit below ten.
pub open spec fn digit_char(d: nat) -> char {
    seq!['0', '1', '2', '3', '4', '5', '6', '7', '8', '9'][d as int]
}

/// The decimal text of a natural number, without sign or leading zeros.
pub open spec fn decimal_spec(n: nat) -> Seq<char>
    decreases n,
{
    if n < 10 {
        seq![digit_char(n)]
    } else {
        decimal_spec(n / 10).push(digit_char(n % 10))
    }
}

/// Relies on `u32`'s `Display`, through `to_string`: the number in decimal
/// digits, with no sign and no leading zeros.
#[verifier::external_body]
fn decimal(n: u32) -> (r: String)
    ensures
        r@ == decimal_spec(n as nat),
{
    n.to_string()
}

/// The service's address and the key that every request carries.
pub struct Client {
    pub base_url: String,
    pub api_key: String,
}

/// A request as plain values: the address and the ordered query parameters.
pub struct TargetView {
    pub base_url: Seq<char>,
    pub params: Seq<(Seq<char>, Seq<char>)>,
}

/// A fully assembled request: the address and its ordered query parameters.
#[derive(Debug)]
pub struct RequestTarget {
    pub base_url: String,
    pub params: Vec<(String, String)>,
}

impl View for RequestTarget {
    type V = TargetView;

    open spec fn view(&self) -> TargetView {
        TargetView {
            base_url: self.base_url@,
            params: self.params@.map_values(|p: (String, String)| (p.0@, p.1@)),
        }
    }
}

/// The parameters that every request starts with: the key and the format.
pub open spec fn fixed_params(api_key: Seq<char>) -> Seq<(Seq<char>, Seq<char>)> {
    seq![("api_key"@, api_key), ("format"@, "json"@)]
}

/// The target that `build_url` assembles from the given parameters.
pub open spec fn target_spec(
    base_url: Seq<char>,
    api_key: Seq<char>,
    params: Seq<(Seq<char>, Seq<char>)>,
) -> TargetView {
    TargetView { base_url, params: fixed_params(api_key) + params }
}

/// A target with one more parameter at the end.
pub open spec fn with_param(t: TargetView, name: Seq<char>, value: Seq<char>) -> TargetView {
    TargetView { base_url: t.base_url, params: t.params.push((name, value)) }
}

/// The service method that answers with a user's recent tracks.
pub open spec fn recent_tracks_method() -> Seq<char> {
    "user.getRecentTracks"@
}

/// Setting the limit and then the page sends the same (name, value) pairs,
/// with the same counts, as setting the page and then the limit: only their
/// order differs.
pub proof fn lemma_setters_commute(t: TargetView, limit: u32, page: u32)
    ensures
        ({
            let a = with_param(
                with_param(t, "limit"@, decimal_spec(limit as nat)),
                "page"@,
                decimal_spec(page as nat),
            );
            let b = with_param(
                with_param(t, "page"@, decimal_spec(page as nat)),
                "limit"@,
                decimal_spec(limit as nat),
            );
            &&& a.base_url == b.base_url
            &&& a.params.to_multiset() == b.params.to_multiset()
        }),
{
    broadcast use vstd::seq_lib::group_to_multiset_ensures;

    let l = ("limit"@, decimal_spec(limit as nat));
    let p = ("page"@, decimal_spec(page as nat));
    assert(t.params.to_multiset().insert(l).insert(p) =~= t.params.to_multiset().insert(p).insert(l));
}

impl Client {
    /// A client of the service at `base_url`, signing with `api_key`.
    pub fn new(base_url: String, api_key: String) -> (r: Client)
        ensures
            r.base_url@ == base_url@,
            r.api_key@ == api_key@,
    {
        Client { base_url, api_key }
    }

    /// Assembles a request: the key and the format first, then `params` in
    /// their order.
    pub fn build_url(&self, params: Vec<(String, String)>) -> (r: RequestTarget)
        ensures
            r@ == target_spec(
                self.base_url@,
                self.api_key@,
                params@.map_values(|p: (String, String)| (p.0@, p.1@)),
            ),
    {
        let mut all: Vec<(String, String)> = Vec::new();
        all.push((owned("api_key"), self.api_key.clone()));
        all.push((owned("format"), owned("json")));
        let ghost fixed = all@;
        let mut i: usize = 0;
        while i < params.len()
            invariant
                i <= params@.len(),
                fixed.len() == 2,
                all@ == fixed + params@.take(i as int),
            decreases params.len() - i,
        {
            all.push((params[i].0.clone(), params[i].1.clone()));
            assert(params@.take(i + 1) =~= params@.take(i as int).push(params@[i as int]));
            i = i + 1;
        }
        assert(params@.take(i as int) =~= params@);
        let r = RequestTarget { base_url: self.base_url.clone(), params: all };
        assert(r@.params =~= target_spec(
            self.base_url@,
            self.api_key@,
            params@.map_values(|p: (String, String)| (p.0@, p.1@)),
        ).params);
        r
    }

    /// A builder for the recent tracks of `user`.
    pub fn recent_tracks<'a>(&'a self, user: &str) -> (r: RequestBuilder<'a, RecentTracks>)
        ensures
            r.client == self,
            r.target@ == target_spec(
                self.base_url@,
                self.api_key@,
                seq![("method"@, recent_tracks_method()), ("user"@, user@)],
            ),
    {
        RecentTracks::build(self, user)
    }
}

/// A request under construction whose answer is read as a `T`.
pub struct RequestBuilder<'a, T> {
    pub client: &'a Client,
    pub target: RequestTarget,
    pub phantom: PhantomData<T>,
}

impl RecentTracks {
    /// A builder for the recent tracks of `user`, seeded with the method
    /// name and the user.
    pub fn build<'a>(client: &'a Client, user: &str) -> (r: RequestBuilder<'a, RecentTracks>)
        ensures
            r.client == client,
            r.target@ == target_spec(
                client.base_url@,
                client.api_key@,
                seq![("method"@, recent_tracks_method()), ("user"@, user@)],
            ),
    {
        let mut params: Vec<(String, String)> = Vec::new();
        params.push((owned("method"), owned("user.getRecentTracks")));
        params.push((owned("user"), owned(user)));
        let target = client.build_url(params);
        assert(params@.map_values(|p: (String, String)| (p.0@, p.1@)) =~= seq![
            ("method"@, recent_tracks_method()),
            ("user"@, user@),
        ]);
        RequestBuilder { client, target, phantom: PhantomData }
    }
}

impl<'a> RequestBuilder<'a, RecentTracks> {
    /// Adds the number of tracks per page.
    pub fn with_limit(self, limit: u32) -> (r: Self)
        ensures
            r.client == self.client,
            r.target@ == with_param(self.target@, "limit"@, decimal_spec(limit as nat)),
    {
        let mut b = self;
        b.target.params.push((owned("limit"), decimal(limit)));
        assert(b.target@.params =~= self.target@.params.push(("limit"@, decimal_spec(limit as nat))));
        b
    }

    /// Adds the page to fetch.
    pub fn with_page(self, page: u32) -> (r: Self)
        ensures
            r.client == self.client,
            r.target@ == with_param(self.target@, "page"@, decimal_spec(page as nat)),
    {
        let mut b = self;
        b.target.params.push((owned("page"), decimal(page)));
        assert(b.target@.params =~= self.target@.params.push(("page"@, decimal_spec(page as nat))));
        b
    }

    /// Finishes the request with what the transport returned for
    /// `self.target`: the body, or the transport's failure.
    pub fn send(&self, response: Result<Vec<u8>, String>) -> (r: Result<RecentTracks, ClientError>)
        ensures
            response matches Err(e) ==> r matches Err(ClientError::Transport(m)) && m@ == e@,
            response matches Ok(body) ==> classified(body@, r),
    {
        match response {
            Ok(body) => classify(body.as_slice()),
            Err(e) => Err(ClientError::Transport(e)),
        }
    }
}

} // verus!
