use vstd::prelude::*;
use vstd::hash_map::StringHashMap;
use vstd::utf8::encode_utf8;

use crate::text::{byte_len, chars_of, lemma_encode_utf8_concat};

verus! {

// ---------------------------------------------------------------------------
// Domain names
// ---------------------------------------------------------------------------

/// The suffix every registry domain carries.
pub open spec fn registry_suffix() -> Seq<char> {
    seq!['.', 'u', 's', 'd', 'c']
}

/// `s` ends with `.usdc`.
pub open spec fn has_suffix(s: Seq<char>) -> bool {
    &&& s.len() >= 5
    &&& s.subrange(s.len() - 5, s.len() as int) == registry_suffix()
}

/// The part of a suffixed domain before `.usdc`.
pub open spec fn label_of(s: Seq<char>) -> Seq<char> {
    s.subrange(0, s.len() - 5)
}

/// A character allowed in a label: `a`-`z`, `0`-`9` or `-`.
pub open spec fn is_label_char(c: char) -> bool {
    ||| ('a' <= c && c <= 'z')
    ||| ('0' <= c && c <= '9')
    ||| c == '-'
}

pub open spec fn msg_suffix() -> Seq<char> {
    "Must end with .usdc"@
}

pub open spec fn msg_length() -> Seq<char> {
    "Length must be between 3 and 63 characters"@
}

pub open spec fn msg_hyphen() -> Seq<char> {
    "Cannot start or end with a hyphen"@
}

pub open spec fn msg_charset() -> Seq<char> {
    "Must contain only lowercase alphanumeric characters and hyphens"@
}

pub open spec fn msg_not_owner() -> Seq<char> {
    "Caller is not the owner"@
}

/// Why `s` is refused as a domain name, checked in this order: the suffix, the
/// byte length of the label (3 to 63 bytes), a hyphen at either end of the label,
/// and the label's characters; `None` when `s` is a valid domain name.
pub open spec fn domain_error(s: Seq<char>) -> Option<Seq<char>> {
    if !has_suffix(s) {
        Some(msg_suffix())
    } else if byte_len(label_of(s)) < 3 || byte_len(label_of(s)) > 63 {
        Some(msg_length())
    } else if label_of(s)[0] == '-' || label_of(s).last() == '-' {
        Some(msg_hyphen())
    } else if !(forall|i: int| 0 <= i < label_of(s).len() ==> is_label_char(#[trigger] label_of(s)[i])) {
        Some(msg_charset())
    } else {
        None
    }
}

/// `s` is a valid domain name.
pub open spec fn domain_valid(s: Seq<char>) -> bool {
    domain_error(s) is None
}

fn ends_with_suffix(v: &Vec<char>) -> (b: bool)
    ensures
        b == has_suffix(v@),
{
    let n = v.len();
    if n < 5 {
        return false;
    }
    let ok = v[n - 5] == '.' && v[n - 4] == 'u' && v[n - 3] == 's' && v[n - 2] == 'd' && v[n - 1] == 'c';
    proof {
        let t = v@.subrange(n - 5, n as int);
        if ok {
            assert(t =~= registry_suffix());
        } else {
            assert(t[0] == v@[n - 5] && t[1] == v@[n - 4] && t[2] == v@[n - 3] && t[3] == v@[n - 2] && t[4] == v@[n - 1]);
            assert(registry_suffix()[0] == '.' && registry_suffix()[1] == 'u' && registry_suffix()[2] == 's'
                && registry_suffix()[3] == 'd' && registry_suffix()[4] == 'c');
        }
    }
    ok
}

/// Whether `domain` ends with `.usdc`.
pub fn has_registry_suffix(domain: &str) -> (b: bool)
    ensures
        b == has_suffix(domain@),
{
    let v = chars_of(domain);
    ends_with_suffix(&v)
}

fn is_label_char_exec(c: char) -> (b: bool)
    ensures
        b == is_label_char(c),
{
    ('a' <= c && c <= 'z') || ('0' <= c && c <= '9') || c == '-'
}

proof fn lemma_suffix_bytes()
    ensures
        byte_len(registry_suffix()) == 5,
{
    reveal_with_fuel(encode_utf8, 6);
    let s = registry_suffix();
    assert(s.drop_first() =~= seq!['u', 's', 'd', 'c']);
    assert(s.drop_first().drop_first() =~= seq!['s', 'd', 'c']);
    assert(s.drop_first().drop_first().drop_first() =~= seq!['d', 'c']);
    assert(s.drop_first().drop_first().drop_first().drop_first() =~= seq!['c']);
    assert(s.drop_first().drop_first().drop_first().drop_first().drop_first() =~= Seq::<char>::empty());
}


// ---------------------------------------------------------------------------
// Records and errors
// ---------------------------------------------------------------------------

/// The kind of entity that holds a domain.
#[derive(Debug, Clone, Copy, PartialEq, Eq)]
pub enum EntityType {
    Government,
    Corporation,
    Vessel,
    Individual,
}

/// What the registry stores for one domain.
#[derive(Debug, Clone)]
pub struct DomainRecord {
    pub owner: String,
    pub target_address: String,
    pub entity_type: EntityType,
}

/// A domain record as plain values.
pub struct DomainRecordView {
    pub owner: Seq<char>,
    pub target_address: Seq<char>,
    pub entity_type: EntityType,
}

impl View for DomainRecord {
    type V = DomainRecordView;

    open spec fn view(&self) -> DomainRecordView {
        DomainRecordView {
            owner: self.owner@,
            target_address: self.target_address@,
            entity_type: self.entity_type,
        }
    }
}

/// Errors of the registry.
#[derive(Debug, PartialEq)]
pub enum RegistryError {
    InvalidDomainName(String),
    DomainAlreadyExists(String),
    DomainNotFound(String),
    Unauthorized(String),
}

/// A registry error as plain values.
pub enum RegistryErrorView {
    InvalidDomainName(Seq<char>),
    DomainAlreadyExists(Seq<char>),
    DomainNotFound(Seq<char>),
    Unauthorized(Seq<char>),
}

impl View for RegistryError {
    type V = RegistryErrorView;

    open spec fn view(&self) -> RegistryErrorView {
        match self {
            RegistryError::InvalidDomainName(m) => RegistryErrorView::InvalidDomainName(m@),
            RegistryError::DomainAlreadyExists(m) => RegistryErrorView::DomainAlreadyExists(m@),
            RegistryError::DomainNotFound(m) => RegistryErrorView::DomainNotFound(m@),
            RegistryError::Unauthorized(m) => RegistryErrorView::Unauthorized(m@),
        }
    }
}

/// A unit result with its error taken as plain values.
pub open spec fn outcome(r: Result<(), RegistryError>) -> Result<(), RegistryErrorView> {
    match r {
        Ok(()) => Ok(()),
        Err(e) => Err(e@),
    }
}

/// Checks `domain` against the `.usdc` naming rules; the error names the
/// first rule that `domain` breaks (see `domain_error`).
#[verifier::loop_isolation(false)]
pub fn validate_domain(domain: &str) -> (r: Result<(), RegistryError>)
    ensures
        outcome(r) == match domain_error(domain@) {
            None => Ok(()),
            Some(msg) => Err(RegistryErrorView::InvalidDomainName(msg)),
        },
{
    let v = chars_of(domain);
    if !ends_with_suffix(&v) {
        return Err(RegistryError::InvalidDomainName("Must end with .usdc".to_string()));
    }
    let ghost s = domain@;
    let ghost label = label_of(s);
    proof {
        assert(s =~= label + registry_suffix());
        lemma_encode_utf8_concat(label, registry_suffix());
        lemma_suffix_bytes();
    }
    let bytes = domain.as_bytes();
    let label_bytes = bytes.len() - 5;
    assert(label_bytes == byte_len(label));
    if label_bytes < 3 || label_bytes > 63 {
        return Err(RegistryError::InvalidDomainName("Length must be between 3 and 63 characters".to_string()));
    }
    let k = v.len() - 5;
    assert(k >= 1) by {
        if k == 0 {
            assert(label =~= Seq::<char>::empty());
        }
    }
    if v[0] == '-' || v[k - 1] == '-' {
        return Err(RegistryError::InvalidDomainName("Cannot start or end with a hyphen".to_string()));
    }
    let mut i: usize = 0;
    while i < k
        invariant
            0 <= i <= k,
            forall|j: int| 0 <= j < i ==> is_label_char(#[trigger] label[j]),
        decreases k - i,
    {
        if !is_label_char_exec(v[i]) {
            assert(!is_label_char(label[i as int]));
            return Err(RegistryError::InvalidDomainName(
                "Must contain only lowercase alphanumeric characters and hyphens".to_string(),
            ));
        }
        i = i + 1;
    }
    Ok(())
}

/// The entity type that a (lower-case) name denotes: `government`,
/// `corporation` and `vessel` name their types, anything else is an individual.
pub open spec fn entity_type_named(name: Seq<char>) -> EntityType {
    if name == "government"@ {
        EntityType::Government
    } else if name == "corporation"@ {
        EntityType::Corporation
    } else if name == "vessel"@ {
        EntityType::Vessel
    } else {
        EntityType::Individual
    }
}

/// The entity type that the (lower-case) `name` denotes.
pub fn entity_type_from_name(name: &str) -> (e: EntityType)
    ensures
        e == entity_type_named(name@),
{
    let name = name.to_string();
    if name == "government".to_string() {
        EntityType::Government
    } else if name == "corporation".to_string() {
        EntityType::Corporation
    } else if name == "vessel".to_string() {
        EntityType::Vessel
    } else {
        EntityType::Individual
    }
}

// ---------------------------------------------------------------------------
// The registry as a map from domain names to records
// ---------------------------------------------------------------------------

/// The registry's contents: domain name to record.
pub type RegistryMap = Map<Seq<char>, DomainRecordView>;

/// `register` on the model: the next contents and the outcome.
pub open spec fn spec_register(
    m: RegistryMap,
    domain: Seq<char>,
    owner: Seq<char>,
    target: Seq<char>,
    entity: EntityType,
) -> (RegistryMap, Result<(), RegistryErrorView>) {
    match domain_error(domain) {
        Some(msg) => (m, Err(RegistryErrorView::InvalidDomainName(msg))),
        None => if m.contains_key(domain) {
            (m, Err(RegistryErrorView::DomainAlreadyExists(domain)))
        } else {
            (
                m.insert(domain, DomainRecordView { owner, target_address: target, entity_type: entity }),
                Ok(()),
            )
        },
    }
}

/// `resolve` on the model.
pub open spec fn spec_resolve(m: RegistryMap, domain: Seq<char>) -> Option<Seq<char>> {
    if m.contains_key(domain) {
        Some(m[domain].target_address)
    } else {
        None
    }
}

/// `update_target` on the model.
pub open spec fn spec_update_target(
    m: RegistryMap,
    domain: Seq<char>,
    caller: Seq<char>,
    new_target: Seq<char>,
) -> (RegistryMap, Result<(), RegistryErrorView>) {
    if !m.contains_key(domain) {
        (m, Err(RegistryErrorView::DomainNotFound(domain)))
    } else if m[domain].owner != caller {
        (m, Err(RegistryErrorView::Unauthorized(msg_not_owner())))
    } else {
        (m.insert(domain, DomainRecordView { target_address: new_target, ..m[domain] }), Ok(()))
    }
}

/// `transfer` on the model.
pub open spec fn spec_transfer(
    m: RegistryMap,
    domain: Seq<char>,
    caller: Seq<char>,
    new_owner: Seq<char>,
) -> (RegistryMap, Result<(), RegistryErrorView>) {
    if !m.contains_key(domain) {
        (m, Err(RegistryErrorView::DomainNotFound(domain)))
    } else if m[domain].owner != caller {
        (m, Err(RegistryErrorView::Unauthorized(msg_not_owner())))
    } else {
        (m.insert(domain, DomainRecordView { owner: new_owner, ..m[domain] }), Ok(()))
    }
}

/// Every domain in `m` is a valid domain name.
pub open spec fn all_domains_valid(m: RegistryMap) -> bool {
    forall|d: Seq<char>| #[trigger] m.contains_key(d) ==> domain_valid(d)
}

/// The `.usdc` domain registry.
pub struct AtlasRegistry {
    records: StringHashMap<DomainRecord>,
}

impl View for AtlasRegistry {
    type V = RegistryMap;

    closed spec fn view(&self) -> RegistryMap {
        self.records@.map_values(|r: DomainRecord| r@)
    }
}

impl AtlasRegistry {
    #[verifier::type_invariant]
    closed spec fn inv(self) -> bool {
        all_domains_valid(self@)
    }

    /// An empty registry.
    pub fn new() -> (r: Self)
        ensures
            r@ == RegistryMap::empty(),
            all_domains_valid(r@),
    {
        let r = AtlasRegistry { records: StringHashMap::new() };
        assert(r@ =~= RegistryMap::empty());
        r
    }

    /// Registers `domain` for `owner`, pointing at `target`.
    pub fn register(
        &mut self,
        domain: &str,
        owner: &str,
        target: &str,
        entity: EntityType,
    ) -> (r: Result<(), RegistryError>)
        ensures
            (final(self)@, outcome(r)) == spec_register(old(self)@, domain@, owner@, target@, entity),
            all_domains_valid(final(self)@),
    {
        proof {
            use_type_invariant(&*self);
        }
        match validate_domain(domain) {
            Ok(()) => {},
            Err(e) => return Err(e),
        }
        if self.records.contains_key(domain) {
            return Err(RegistryError::DomainAlreadyExists(domain.to_string()));
        }
        let record = DomainRecord {
            owner: owner.to_string(),
            target_address: target.to_string(),
            entity_type: entity,
        };
        let ghost old_view = self@;
        let mut records = StringHashMap::new();
        std::mem::swap(&mut records, &mut self.records);
        records.insert(domain.to_string(), record);
        proof {
            assert(records@.map_values(|r: DomainRecord| r@) =~= old_view.insert(domain@, record@));
        }
        self.records = records;
        proof {
            use_type_invariant(&*self);
        }
        Ok(())
    }

    /// Stores `record` under `domain`, which is registered already.
    fn replace_record(&mut self, domain: &str, record: DomainRecord)
        requires
            old(self)@.contains_key(domain@),
        ensures
            final(self)@ == old(self)@.insert(domain@, record@),
    {
        proof {
            use_type_invariant(&*self);
        }
        let ghost old_view = self@;
        let mut records = StringHashMap::new();
        std::mem::swap(&mut records, &mut self.records);
        records.insert(domain.to_string(), record);
        proof {
            assert(records@.map_values(|r: DomainRecord| r@) =~= old_view.insert(domain@, record@));
        }
        self.records = records;
    }

    /// Points `domain` at `new_target`; only the domain's owner may do so.
    pub fn update_target(&mut self, domain: &str, caller: &str, new_target: &str) -> (r: Result<(), RegistryError>)
        ensures
            (final(self)@, outcome(r)) == spec_update_target(old(self)@, domain@, caller@, new_target@),
            all_domains_valid(final(self)@),
    {
        proof {
            use_type_invariant(&*self);
        }
        let rec = match self.records.get(domain) {
            Some(rec) => rec,
            None => return Err(RegistryError::DomainNotFound(domain.to_string())),
        };
        let caller_name = caller.to_string();
        if !(rec.owner == caller_name) {
            return Err(RegistryError::Unauthorized("Caller is not the owner".to_string()));
        }
        let updated = DomainRecord {
            owner: rec.owner.clone(),
            target_address: new_target.to_string(),
            entity_type: rec.entity_type,
        };
        self.replace_record(domain, updated);
        proof {
            use_type_invariant(&*self);
        }
        Ok(())
    }

    /// Hands `domain` over to `new_owner`; only the domain's owner may do so.
    pub fn transfer(&mut self, domain: &str, caller: &str, new_owner: &str) -> (r: Result<(), RegistryError>)
        ensures
            (final(self)@, outcome(r)) == spec_transfer(old(self)@, domain@, caller@, new_owner@),
            all_domains_valid(final(self)@),
    {
        proof {
            use_type_invariant(&*self);
        }
        let rec = match self.records.get(domain) {
            Some(rec) => rec,
            None => return Err(RegistryError::DomainNotFound(domain.to_string())),
        };
        let caller_name = caller.to_string();
        if !(rec.owner == caller_name) {
            return Err(RegistryError::Unauthorized("Caller is not the owner".to_string()));
        }
        let updated = DomainRecord {
            owner: new_owner.to_string(),
            target_address: rec.target_address.clone(),
            entity_type: rec.entity_type,
        };
        self.replace_record(domain, updated);
        proof {
            use_type_invariant(&*self);
        }
        Ok(())
    }

    /// The target address of `domain`, if it is registered.
    pub fn resolve(&self, domain: &str) -> (r: Option<String>)
        ensures
            match r {
                Some(t) => spec_resolve(self@, domain@) == Some(t@),
                None => spec_resolve(self@, domain@) is None,
            },
    {
        match self.records.get(domain) {
            Some(rec) => Some(rec.target_address.clone()),
            None => None,
        }
    }
}

} // verus!
