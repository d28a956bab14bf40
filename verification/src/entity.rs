//! Entity addressing: logical targets and their canonical locator strings.
//!
//! An entity addresses either an actor (by identity alone) or a capability
//! provider (by contract id, link name, and identity). The locator grammar is
//! `wasmbus://<public_key>` for mesh-assigned module identities, and
//! `wasmbus://<contract>/<link>/<public_key>` otherwise, with contract ids and
//! link names normalized into valid path segments.

use vstd::prelude::*;
use vstd::string::*;
use crate::error::{RpcError, RpcResult};

verus! {

/// URL scheme for protocol locator strings.
pub const URL_SCHEME: &'static str = "wasmbus";

/// A logical address for either an actor or a capability provider.
#[derive(Debug, Clone)]
pub struct WasmCloudEntity {
    /// Opaque unique identity; empty for pure contract addressing.
    pub public_key: String,
    /// Namespaced capability contract name; empty for actors.
    pub contract_id: String,
    /// Instance discriminator among providers of one contract; empty for actors.
    pub link_name: String,
}

/// Host-supplied record binding an actor to a provider instance.
#[derive(Debug, Clone)]
pub struct LinkDefinition {
    /// Identity of the actor side of the link.
    pub actor_id: String,
    /// Identity of the provider side of the link.
    pub provider_id: String,
    /// Link name discriminating among provider instances.
    pub link_name: String,
    /// Contract implemented over this link.
    pub contract_id: String,
    /// Configuration settings carried with the link.
    pub values: Vec<(String, String)>,
}

/// An entity is an actor iff its link name or its contract id is empty.
pub open spec fn is_actor_spec(e: WasmCloudEntity) -> bool {
    e.link_name@.len() == 0 || e.contract_id@.len() == 0
}

/// An entity is a provider iff it is not an actor.
pub open spec fn is_provider_spec(e: WasmCloudEntity) -> bool {
    !is_actor_spec(e)
}

/// True iff no character of the sequence is the locator segment separator.
pub open spec fn slash_free(s: Seq<char>) -> bool {
    forall|i: int| 0 <= i < s.len() ==> s[i] != '/'
}

/// Replacement step of segment normalization, one character at a time: `:`
/// becomes `/` (only when `map_colon` is set, as for contract ids) and space
/// becomes `_`.
pub open spec fn replace_char(c: char, map_colon: bool) -> char {
    if map_colon && c == ':' {
        '/'
    } else if c == ' ' {
        '_'
    } else {
        c
    }
}

/// The replacement step over a whole segment.
pub open spec fn replaced_seq(s: Seq<char>, map_colon: bool) -> Seq<char> {
    s.map_values(|c: char| replace_char(c, map_colon))
}

/// What Unicode case folding returns for the given characters.
pub uninterp spec fn lower_of(s: Seq<char>) -> Seq<char>;

/// Normalization of a segment: the replacement step, then case folding, in
/// that order, as the locator grammar prescribes.
pub open spec fn norm_seg(s: Seq<char>, map_colon: bool) -> Seq<char> {
    lower_of(replaced_seq(s, map_colon))
}

/// Canonical form of a contract id: `:` to `/`, space to `_`, lower-cased.
pub open spec fn norm_contract(s: Seq<char>) -> Seq<char> {
    norm_seg(s, true)
}

/// Canonical form of a link name: space to `_`, lower-cased.
pub open spec fn norm_link(s: Seq<char>) -> Seq<char> {
    norm_seg(s, false)
}

/// A public key that looks like a mesh-assigned module identity: it begins
/// with `M` or `m`.
pub open spec fn is_module_key(k: Seq<char>) -> bool {
    k.len() > 0 && (k[0] == 'M' || k[0] == 'm')
}

/// The canonical locator string of an entity.
pub open spec fn url_spec(e: WasmCloudEntity) -> Seq<char> {
    if is_module_key(e.public_key@) {
        "wasmbus://"@ + e.public_key@
    } else {
        "wasmbus://"@ + norm_contract(e.contract_id@) + "/"@ + norm_link(e.link_name@)
            + "/"@ + e.public_key@
    }
}

/// Relies on `String::push`: appends the character at the end of the string.
#[verifier::external_body]
fn push_char(s: &mut String, c: char)
    ensures
        final(s)@ == old(s)@.push(c),
{
    s.push(c)
}

/// Relies on `str::to_lowercase`: the result depends on the characters
/// alone, an empty input stays empty, and since no character lower-cases to
/// the separator `/`, a separator-free input stays separator-free.
#[verifier::external_body]
fn lowercase(s: &str) -> (r: String)
    ensures
        r@ == lower_of(s@),
        s@.len() == 0 ==> r@.len() == 0,
        slash_free(s@) ==> slash_free(r@),
{
    s.to_lowercase()
}

/// The replacement step on one character, matching `replace_char`.
fn replace_char_exec(c: char, map_colon: bool) -> (r: char)
    ensures
        r == replace_char(c, map_colon),
{
    if map_colon && c == ':' {
        '/'
    } else if c == ' ' {
        '_'
    } else {
        c
    }
}

/// Normalization of a whole segment, matching `norm_seg`: the verified
/// replacement loop followed by the case folding of the standard library.
fn normalize_segment(s: &str, map_colon: bool) -> (r: String)
    ensures
        r@ == norm_seg(s@, map_colon),
{
    let n = s.unicode_len();
    let mut rep = String::new();
    let mut i: usize = 0;
    while i < n
        invariant
            n == s@.len(),
            i <= n,
            rep@ == replaced_seq(s@.subrange(0, i as int), map_colon),
        decreases n - i,
    {
        let c = s.get_char(i);
        let rc = replace_char_exec(c, map_colon);
        push_char(&mut rep, rc);
        proof {
            assert(replaced_seq(s@.subrange(0, (i + 1) as int), map_colon) =~= replaced_seq(
                s@.subrange(0, i as int),
                map_colon,
            ).push(replace_char(s@[i as int], map_colon)));
        }
        i = i + 1;
    }
    proof {
        assert(s@.subrange(0, n as int) =~= s@);
    }
    lowercase(rep.as_str())
}

impl WasmCloudEntity {
    /// Constructor for an actor entity; the identity may not be empty.
    pub fn new_actor(public_key: &str) -> (r: RpcResult<WasmCloudEntity>)
        ensures
            public_key@.len() > 0 ==> (r matches Ok(e) && e.public_key@ == public_key@
                && e.contract_id@ == Seq::<char>::empty() && e.link_name@ == Seq::<char>::empty()
                && is_actor_spec(e) && !is_provider_spec(e)),
            public_key@.len() == 0 ==> (r matches Err(er) && er matches RpcError::InvalidParameter(
                m,
            ) && m@ == "public_key may not be empty"@),
    {
        if public_key.is_empty() {
            Err(RpcError::InvalidParameter(String::from_str("public_key may not be empty")))
        } else {
            Ok(
                WasmCloudEntity {
                    public_key: public_key.to_owned(),
                    contract_id: String::new(),
                    link_name: String::new(),
                },
            )
        }
    }

    /// Constructor for a capability provider entity; both parameters are
    /// required to be non-empty. The public key is left empty: provider
    /// entities are addressed purely by contract and link.
    pub fn new_provider(contract_id: &str, link_name: &str) -> (r: RpcResult<WasmCloudEntity>)
        ensures
            contract_id@.len() > 0 && link_name@.len() > 0 ==> (r matches Ok(e)
                && e.public_key@ == Seq::<char>::empty() && e.contract_id@ == contract_id@
                && e.link_name@ == link_name@ && is_provider_spec(e) && !is_actor_spec(e)),
            contract_id@.len() == 0 ==> (r matches Err(er) && er matches RpcError::InvalidParameter(
                m,
            ) && m@ == "contract_id may not be empty"@),
            contract_id@.len() > 0 && link_name@.len() == 0 ==> (r matches Err(er) && er matches
                RpcError::InvalidParameter(m) && m@ == "link_name may not be empty"@),
    {
        if contract_id.is_empty() {
            Err(RpcError::InvalidParameter(String::from_str("contract_id may not be empty")))
        } else if link_name.is_empty() {
            Err(RpcError::InvalidParameter(String::from_str("link_name may not be empty")))
        } else {
            Ok(
                WasmCloudEntity {
                    public_key: String::new(),
                    contract_id: contract_id.to_owned(),
                    link_name: link_name.to_owned(),
                },
            )
        }
    }

    /// Returns the canonical locator string of the entity.
    pub fn url(&self) -> (r: String)
        ensures
            r@ == url_spec(*self),
    {
        let mut out = String::from_str("wasmbus://");
        let pk = self.public_key.as_str();
        let is_module = pk.unicode_len() > 0 && {
            let c = pk.get_char(0);
            c == 'M' || c == 'm'
        };
        if is_module {
            out.append(pk);
        } else {
            let nc = normalize_segment(self.contract_id.as_str(), true);
            let nl = normalize_segment(self.link_name.as_str(), false);
            out.append(nc.as_str());
            out.append("/");
            out.append(nl.as_str());
            out.append("/");
            out.append(pk);
        }
        out
    }

    /// Returns the unique (public) key of the entity.
    pub fn public_key(&self) -> (r: String)
        ensures
            r@ == self.public_key@,
    {
        self.public_key.clone()
    }

    /// Returns true if this entity refers to an actor.
    pub fn is_actor(&self) -> (r: bool)
        ensures
            r == is_actor_spec(*self),
    {
        self.link_name.as_str().is_empty() || self.contract_id.as_str().is_empty()
    }

    /// Returns true if this entity refers to a provider.
    pub fn is_provider(&self) -> (r: bool)
        ensures
            r == is_provider_spec(*self),
    {
        !self.is_actor()
    }

    /// Converts a bare target string into an entity; such a string always
    /// addresses an actor, since provider addresses are only ever built from
    /// structured link data.
    pub fn from_target(target: &str) -> (r: RpcResult<WasmCloudEntity>)
        ensures
            target@.len() > 0 ==> (r matches Ok(e) && e.public_key@ == target@
                && e.contract_id@ == Seq::<char>::empty() && e.link_name@ == Seq::<char>::empty()
                && is_actor_spec(e)),
            target@.len() == 0 ==> (r matches Err(er) && er matches RpcError::InvalidParameter(_)),
    {
        WasmCloudEntity::new_actor(target)
    }
}

impl LinkDefinition {
    /// The entity addressing the actor side of this link.
    pub fn actor_entity(&self) -> (r: WasmCloudEntity)
        ensures
            r.public_key@ == self.actor_id@,
            r.contract_id@ == Seq::<char>::empty(),
            r.link_name@ == Seq::<char>::empty(),
            is_actor_spec(r),
    {
        WasmCloudEntity {
            public_key: self.actor_id.clone(),
            contract_id: String::new(),
            link_name: String::new(),
        }
    }

    /// The entity addressing the provider side of this link.
    pub fn provider_entity(&self) -> (r: WasmCloudEntity)
        ensures
            r.public_key@ == self.provider_id@,
            r.contract_id@ == self.contract_id@,
            r.link_name@ == self.link_name@,
            self.contract_id@.len() > 0 && self.link_name@.len() > 0 ==> is_provider_spec(r),
    {
        WasmCloudEntity {
            public_key: self.provider_id.clone(),
            contract_id: self.contract_id.clone(),
            link_name: self.link_name.clone(),
        }
    }
}

/// Law: an entity whose contract id and link name are both empty — as built
/// by the actor constructors — is classified as an actor and never as a
/// provider.
pub proof fn lemma_empty_contract_and_link_is_actor(e: WasmCloudEntity)
    requires
        e.contract_id@.len() == 0,
        e.link_name@.len() == 0,
    ensures
        is_actor_spec(e),
        !is_provider_spec(e),
{
}

/// Law: an entity with a non-empty contract id and a non-empty link name —
/// as built by the provider constructor — is classified as a provider and
/// never as an actor.
pub proof fn lemma_nonempty_contract_and_link_is_provider(e: WasmCloudEntity)
    requires
        e.contract_id@.len() > 0,
        e.link_name@.len() > 0,
    ensures
        is_provider_spec(e),
        !is_actor_spec(e),
{
}

/// A sequence with a unique separator occurrence splits only one way: if the
/// same sequence is a separator-free head, a separator, and a tail in two
/// ways, the heads and the tails agree.
proof fn lemma_unique_split(x: Seq<char>, a1: Seq<char>, r1: Seq<char>, a2: Seq<char>, r2: Seq<char>)
    requires
        slash_free(a1),
        slash_free(a2),
        x == a1 + seq!['/'] + r1,
        x == a2 + seq!['/'] + r2,
    ensures
        a1 == a2,
        r1 == r2,
{
    if a1.len() < a2.len() {
        assert(x[a1.len() as int] == '/');
        assert(x[a1.len() as int] == a2[a1.len() as int]);
        assert(false);
    }
    if a2.len() < a1.len() {
        assert(x[a2.len() as int] == '/');
        assert(x[a2.len() as int] == a1[a2.len() as int]);
        assert(false);
    }
    assert forall|j: int| 0 <= j < a1.len() implies a1[j] == a2[j] by {
        assert(x[j] == a1[j]);
        assert(x[j] == a2[j]);
    }
    assert(a1 =~= a2);
    assert(seq!['/'].len() == 1);
    assert(x.len() == a1.len() + 1 + r1.len());
    assert(x.len() == a2.len() + 1 + r2.len());
    assert(r1.len() == r2.len());
    assert forall|j: int| 0 <= j < r1.len() implies r1[j] == r2[j] by {
        assert(x[a1.len() + 1 + j] == r1[j]);
        assert(x[a2.len() + 1 + j] == r2[j]);
    }
    assert(r1 =~= r2);
}

/// Law: locator determinism for module identities. Two entities in the
/// identity-only locator form produce the same locator exactly when their
/// public keys agree.
pub proof fn lemma_url_injective_module(a: WasmCloudEntity, b: WasmCloudEntity)
    requires
        is_module_key(a.public_key@),
        is_module_key(b.public_key@),
        url_spec(a) == url_spec(b),
    ensures
        a.public_key@ == b.public_key@,
{
    let p = "wasmbus://"@;
    assert(a.public_key@ =~= (p + a.public_key@).subrange(
        p.len() as int,
        (p + a.public_key@).len() as int,
    ));
    assert(b.public_key@ =~= (p + b.public_key@).subrange(
        p.len() as int,
        (p + b.public_key@).len() as int,
    ));
}

/// Law: locator injectivity for the contract-qualified form. Entities whose
/// normalized attributes keep to single locator segments — the normalized
/// contract id, normalized link name and public key hold no separator, as
/// they do whenever the raw contract id holds no separator or colon and the
/// raw link name and key hold no separator, since case folding maps no
/// character to the separator — produce the same locator exactly when their
/// attributes agree up to normalization; normalization is thus the only
/// collapsing the locator grammar performs on such entities.
#[verifier::rlimit(100)]
pub proof fn lemma_url_injective_qualified(a: WasmCloudEntity, b: WasmCloudEntity)
    requires
        !is_module_key(a.public_key@),
        !is_module_key(b.public_key@),
        slash_free(norm_contract(a.contract_id@)),
        slash_free(norm_contract(b.contract_id@)),
        slash_free(norm_link(a.link_name@)),
        slash_free(norm_link(b.link_name@)),
        slash_free(a.public_key@),
        slash_free(b.public_key@),
        url_spec(a) == url_spec(b),
    ensures
        norm_contract(a.contract_id@) == norm_contract(b.contract_id@),
        norm_link(a.link_name@) == norm_link(b.link_name@),
        a.public_key@ == b.public_key@,
{
    let p = "wasmbus://"@;
    reveal_strlit("/");
    let ca = norm_contract(a.contract_id@);
    let cb = norm_contract(b.contract_id@);
    let la = norm_link(a.link_name@);
    let lb = norm_link(b.link_name@);
    let xa = ca + seq!['/'] + (la + seq!['/'] + a.public_key@);
    let xb = cb + seq!['/'] + (lb + seq!['/'] + b.public_key@);
    assert(url_spec(a) =~= p + xa);
    assert(url_spec(b) =~= p + xb);
    assert(xa =~= (p + xa).subrange(p.len() as int, (p + xa).len() as int));
    assert(xb =~= (p + xb).subrange(p.len() as int, (p + xb).len() as int));
    lemma_unique_split(xa, ca, la + seq!['/'] + a.public_key@, cb, lb + seq!['/'] + b.public_key@);
    lemma_unique_split(
        la + seq!['/'] + a.public_key@,
        la,
        a.public_key@,
        lb,
        b.public_key@,
    );
}

/// Law: the two locator forms never collide. An identity-only locator over
/// a key that holds no separator differs from every contract-qualified
/// locator, whose tail always holds the separators between its segments.
pub proof fn lemma_url_forms_distinct(a: WasmCloudEntity, b: WasmCloudEntity)
    requires
        is_module_key(a.public_key@),
        slash_free(a.public_key@),
        !is_module_key(b.public_key@),
    ensures
        url_spec(a) != url_spec(b),
{
    let p = "wasmbus://"@;
    reveal_strlit("/");
    let cb = norm_contract(b.contract_id@);
    let xb = cb + "/"@ + norm_link(b.link_name@) + "/"@ + b.public_key@;
    if url_spec(a) == url_spec(b) {
        assert(a.public_key@ =~= (p + a.public_key@).subrange(
            p.len() as int,
            (p + a.public_key@).len() as int,
        ));
        assert(xb =~= (p + xb).subrange(p.len() as int, (p + xb).len() as int));
        assert(a.public_key@ == xb);
        assert(xb[cb.len() as int] == '/');
        assert(false);
    }
}

/// Law: the collapsing direction of locator determinism. Entities in the
/// contract-qualified form whose attributes agree up to normalization — for
/// instance contract ids differing only in case, spaces, or colon-versus-
/// separator spelling — produce the identical locator.
pub proof fn lemma_url_of_normalized(a: WasmCloudEntity, b: WasmCloudEntity)
    requires
        !is_module_key(a.public_key@),
        !is_module_key(b.public_key@),
        norm_contract(a.contract_id@) == norm_contract(b.contract_id@),
        norm_link(a.link_name@) == norm_link(b.link_name@),
        a.public_key@ == b.public_key@,
    ensures
        url_spec(a) == url_spec(b),
{
}

} // verus!
