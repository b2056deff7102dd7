use vstd::prelude::*;

use vstd::utf8::encode_utf8;

use crate::registry::{
    all_domains_valid, domain_error, domain_valid, entity_type_named, has_suffix, label_of,
    msg_not_owner, spec_register, spec_resolve, spec_transfer, spec_update_target, DomainRecordView,
    EntityType, RegistryErrorView, RegistryMap,
};

verus! {

/// A domain that is registered successfully resolves to the target it was registered with.
pub proof fn law_register_then_resolve(m: RegistryMap, domain: Seq<char>, owner: Seq<char>, target: Seq<char>, entity: EntityType)
    ensures
        spec_register(m, domain, owner, target, entity).1 is Ok ==> spec_resolve(
            spec_register(m, domain, owner, target, entity).0,
            domain,
        ) == Some(target),
{
}

/// Registration succeeds exactly for a valid name that is not taken; a taken
/// valid name is refused as already existing.
pub proof fn law_register_succeeds_iff_valid_and_free(m: RegistryMap, domain: Seq<char>, owner: Seq<char>, target: Seq<char>, entity: EntityType)
    ensures
        spec_register(m, domain, owner, target, entity).1 is Ok <==> (domain_valid(domain) && !m.contains_key(domain)),
        (domain_valid(domain) && m.contains_key(domain)) ==> spec_register(m, domain, owner, target, entity).1
            == Err::<(), RegistryErrorView>(RegistryErrorView::DomainAlreadyExists(domain)),
{
}

/// A refused request leaves the registry as it was.
pub proof fn law_failure_changes_nothing(m: RegistryMap, domain: Seq<char>, caller: Seq<char>, arg: Seq<char>, target: Seq<char>, entity: EntityType)
    ensures
        spec_register(m, domain, caller, target, entity).1 is Err ==> spec_register(m, domain, caller, target, entity).0 == m,
        spec_update_target(m, domain, caller, arg).1 is Err ==> spec_update_target(m, domain, caller, arg).0 == m,
        spec_transfer(m, domain, caller, arg).1 is Err ==> spec_transfer(m, domain, caller, arg).0 == m,
{
}

/// Only the owner of a registered domain may change it: updates and transfers
/// succeed exactly when the domain exists and the caller owns it, and are
/// refused as unauthorized when it exists and the caller does not own it.
pub proof fn law_only_owner_changes(m: RegistryMap, domain: Seq<char>, caller: Seq<char>, arg: Seq<char>)
    ensures
        spec_update_target(m, domain, caller, arg).1 is Ok <==> (m.contains_key(domain) && m[domain].owner == caller),
        spec_transfer(m, domain, caller, arg).1 is Ok <==> (m.contains_key(domain) && m[domain].owner == caller),
        (m.contains_key(domain) && m[domain].owner != caller) ==> {
            &&& spec_update_target(m, domain, caller, arg).1 == Err::<(), RegistryErrorView>(RegistryErrorView::Unauthorized(msg_not_owner()))
            &&& spec_transfer(m, domain, caller, arg).1 == Err::<(), RegistryErrorView>(RegistryErrorView::Unauthorized(msg_not_owner()))
        },
        !m.contains_key(domain) ==> {
            &&& spec_update_target(m, domain, caller, arg).1 == Err::<(), RegistryErrorView>(RegistryErrorView::DomainNotFound(domain))
            &&& spec_transfer(m, domain, caller, arg).1 == Err::<(), RegistryErrorView>(RegistryErrorView::DomainNotFound(domain))
        },
{
}

/// After a successful update the domain resolves to the new target; its owner
/// and entity type stay as they were.
pub proof fn law_update_then_resolve(m: RegistryMap, domain: Seq<char>, caller: Seq<char>, new_target: Seq<char>)
    ensures
        spec_update_target(m, domain, caller, new_target).1 is Ok ==> {
            let m2 = spec_update_target(m, domain, caller, new_target).0;
            &&& spec_resolve(m2, domain) == Some(new_target)
            &&& m2[domain].owner == m[domain].owner
            &&& m2[domain].entity_type == m[domain].entity_type
        },
{
}

/// After a successful transfer the new owner controls the domain and the old
/// one (when different) no longer does; the target and entity type are kept.
pub proof fn law_transfer_hands_over_control(m: RegistryMap, domain: Seq<char>, caller: Seq<char>, new_owner: Seq<char>, t: Seq<char>)
    ensures
        spec_transfer(m, domain, caller, new_owner).1 is Ok ==> {
            let m2 = spec_transfer(m, domain, caller, new_owner).0;
            &&& spec_resolve(m2, domain) == spec_resolve(m, domain)
            &&& m2[domain].entity_type == m[domain].entity_type
            &&& spec_update_target(m2, domain, new_owner, t).1 is Ok
            &&& caller != new_owner ==> spec_update_target(m2, domain, caller, t).1 is Err
        },
{
}

/// A request changes nothing but the domain it names, and no domain is ever removed.
pub proof fn law_only_named_domain_changes(m: RegistryMap, domain: Seq<char>, other: Seq<char>, caller: Seq<char>, arg: Seq<char>, target: Seq<char>, entity: EntityType)
    requires
        other != domain,
    ensures
        spec_register(m, domain, caller, target, entity).0.remove(domain) == m.remove(domain),
        spec_update_target(m, domain, caller, arg).0.remove(domain) == m.remove(domain),
        spec_transfer(m, domain, caller, arg).0.remove(domain) == m.remove(domain),
        spec_resolve(spec_register(m, domain, caller, target, entity).0, other) == spec_resolve(m, other),
        spec_resolve(spec_update_target(m, domain, caller, arg).0, other) == spec_resolve(m, other),
        spec_resolve(spec_transfer(m, domain, caller, arg).0, other) == spec_resolve(m, other),
        m.dom().subset_of(spec_register(m, domain, caller, target, entity).0.dom()),
        m.dom().subset_of(spec_update_target(m, domain, caller, arg).0.dom()),
        m.dom().subset_of(spec_transfer(m, domain, caller, arg).0.dom()),
{
    assert(spec_register(m, domain, caller, target, entity).0.remove(domain) =~= m.remove(domain));
    assert(spec_update_target(m, domain, caller, arg).0.remove(domain) =~= m.remove(domain));
    assert(spec_transfer(m, domain, caller, arg).0.remove(domain) =~= m.remove(domain));
}

/// Only valid domain names are ever stored: the empty registry has none, and
/// every request keeps it so.
pub proof fn law_domains_stay_valid(m: RegistryMap, domain: Seq<char>, caller: Seq<char>, arg: Seq<char>, target: Seq<char>, entity: EntityType)
    ensures
        all_domains_valid(RegistryMap::empty()),
        all_domains_valid(m) ==> all_domains_valid(spec_register(m, domain, caller, target, entity).0),
        all_domains_valid(m) ==> all_domains_valid(spec_update_target(m, domain, caller, arg).0),
        all_domains_valid(m) ==> all_domains_valid(spec_transfer(m, domain, caller, arg).0),
{
}


/// The naming rules, rule by rule: a name without the `.usdc` suffix, a label
/// shorter than 3 or longer than 63 UTF-8 bytes, a label that starts or ends
/// with `-`, and a label with a character other than `a`-`z`, `0`-`9` and `-`
/// are refused, in this order, each with its own message; every other name is valid.
pub proof fn law_naming_rules(s: Seq<char>)
    ensures
        !(s.len() >= 5 && s.subrange(s.len() - 5, s.len() as int) == seq!['.', 'u', 's', 'd', 'c'])
            ==> domain_error(s) == Some("Must end with .usdc"@),
        (s.len() >= 5 && s.subrange(s.len() - 5, s.len() as int) == seq!['.', 'u', 's', 'd', 'c']) ==> {
            let p = s.subrange(0, s.len() - 5);
            let n = encode_utf8(p).len();
            &&& (n < 3 || n > 63) ==> domain_error(s) == Some("Length must be between 3 and 63 characters"@)
            &&& (3 <= n <= 63 && (p[0] == '-' || p[p.len() - 1] == '-'))
                ==> domain_error(s) == Some("Cannot start or end with a hyphen"@)
            &&& (3 <= n <= 63 && p[0] != '-' && p[p.len() - 1] != '-'
                && exists|i: int| 0 <= i < p.len() && !(('a' <= #[trigger] p[i] && p[i] <= 'z')
                    || ('0' <= p[i] && p[i] <= '9') || p[i] == '-'))
                ==> domain_error(s) == Some("Must contain only lowercase alphanumeric characters and hyphens"@)
            &&& (3 <= n <= 63 && p[0] != '-' && p[p.len() - 1] != '-'
                && forall|i: int| 0 <= i < p.len() ==> (('a' <= #[trigger] p[i] && p[i] <= 'z')
                    || ('0' <= p[i] && p[i] <= '9') || p[i] == '-'))
                ==> domain_error(s) is None
        },
{
    if s.len() >= 5 && s.subrange(s.len() - 5, s.len() as int) == seq!['.', 'u', 's', 'd', 'c'] {
        assert(has_suffix(s));
        assert(label_of(s) == s.subrange(0, s.len() - 5));
        if encode_utf8(label_of(s)).len() >= 3 {
            assert(label_of(s).len() > 0) by {
                if label_of(s).len() == 0 {
                    assert(label_of(s) =~= Seq::<char>::empty());
                }
            }
        }
    } else {
        assert(!has_suffix(s));
    }
}

/// An accepted name has the `.usdc` suffix, a label of 3 to 63 UTF-8 bytes that
/// neither starts nor ends with `-`, and only `a`-`z`, `0`-`9` and `-` in its label.
pub proof fn law_valid_names(s: Seq<char>)
    requires
        domain_valid(s),
    ensures
        s.len() >= 5,
        s.subrange(s.len() - 5, s.len() as int) == seq!['.', 'u', 's', 'd', 'c'],
        3 <= encode_utf8(s.subrange(0, s.len() - 5)).len() <= 63,
        s[0] != '-',
        s[s.len() - 6] != '-',
        forall|i: int| 0 <= i < s.len() - 5 ==> (('a' <= #[trigger] s[i] && s[i] <= 'z')
            || ('0' <= s[i] && s[i] <= '9') || s[i] == '-'),
{
    law_naming_rules(s);
    let p = s.subrange(0, s.len() - 5);
    assert forall|i: int| 0 <= i < s.len() - 5 implies (('a' <= #[trigger] s[i] && s[i] <= 'z')
        || ('0' <= s[i] && s[i] <= '9') || s[i] == '-') by {
        assert(p[i] == s[i]);
        if !(('a' <= p[i] && p[i] <= 'z') || ('0' <= p[i] && p[i] <= '9') || p[i] == '-') {
            assert(exists|j: int| 0 <= j < p.len() && !(('a' <= #[trigger] p[j] && p[j] <= 'z')
                || ('0' <= p[j] && p[j] <= '9') || p[j] == '-'));
        }
    }
    assert(p[0] == s[0]);
    assert(p[p.len() - 1] == s[s.len() - 6]);
}

/// A successful registration stores exactly the given owner, target and entity
/// type under the domain, adds that one domain, and lets the registering owner
/// then update and transfer it.
pub proof fn law_register_stores_its_arguments(m: RegistryMap, domain: Seq<char>, owner: Seq<char>, target: Seq<char>, entity: EntityType, t2: Seq<char>, o2: Seq<char>)
    ensures
        spec_register(m, domain, owner, target, entity).1 is Ok ==> {
            let m2 = spec_register(m, domain, owner, target, entity).0;
            &&& !m.contains_key(domain)
            &&& m2.contains_key(domain)
            &&& m2[domain].owner == owner
            &&& m2[domain].target_address == target
            &&& m2[domain].entity_type == entity
            &&& m2.dom() == m.dom().insert(domain)
            &&& spec_update_target(m2, domain, owner, t2).1 is Ok
            &&& spec_transfer(m2, domain, owner, o2).1 is Ok
        },
{
    if spec_register(m, domain, owner, target, entity).1 is Ok {
        assert(spec_register(m, domain, owner, target, entity).0.dom() =~= m.dom().insert(domain));
    }
}

/// A successful update changes only the target of the named domain, to the given one.
pub proof fn law_update_sets_target(m: RegistryMap, domain: Seq<char>, caller: Seq<char>, t: Seq<char>)
    ensures
        spec_update_target(m, domain, caller, t).1 is Ok ==> spec_update_target(m, domain, caller, t).0
            == m.insert(domain, DomainRecordView { owner: caller, target_address: t, entity_type: m[domain].entity_type }),
{
}

/// A successful transfer changes only the owner of the named domain, to the given one.
pub proof fn law_transfer_sets_owner(m: RegistryMap, domain: Seq<char>, caller: Seq<char>, o: Seq<char>)
    ensures
        spec_transfer(m, domain, caller, o).1 is Ok ==> spec_transfer(m, domain, caller, o).0
            == m.insert(domain, DomainRecordView { owner: o, target_address: m[domain].target_address, entity_type: m[domain].entity_type }),
{
}

/// Resolving gives a domain's stored target, and nothing for an unknown domain.
pub proof fn law_resolve_reads_target(m: RegistryMap, domain: Seq<char>)
    ensures
        m.contains_key(domain) ==> spec_resolve(m, domain) == Some(m[domain].target_address),
        !m.contains_key(domain) ==> spec_resolve(m, domain) is None,
{
}

/// Refusals carry the refused domain, or the fixed message for a caller that does not own it.
pub proof fn law_refusal_messages(m: RegistryMap, domain: Seq<char>, caller: Seq<char>, arg: Seq<char>, target: Seq<char>, entity: EntityType)
    ensures
        (domain_valid(domain) && m.contains_key(domain)) ==> spec_register(m, domain, caller, target, entity).1
            == Err::<(), RegistryErrorView>(RegistryErrorView::DomainAlreadyExists(domain)),
        !domain_valid(domain) ==> spec_register(m, domain, caller, target, entity).1
            == Err::<(), RegistryErrorView>(RegistryErrorView::InvalidDomainName(domain_error(domain).unwrap())),
        msg_not_owner() == "Caller is not the owner"@,
{
}

/// Entity names: `government`, `corporation` and `vessel` name their types;
/// every other name is an individual.
pub proof fn law_entity_names(name: Seq<char>)
    ensures
        entity_type_named("government"@) == EntityType::Government,
        entity_type_named("corporation"@) == EntityType::Corporation,
        entity_type_named("vessel"@) == EntityType::Vessel,
        (name != "government"@ && name != "corporation"@ && name != "vessel"@) ==> entity_type_named(name)
            == EntityType::Individual,
{
    reveal_strlit("government");
    reveal_strlit("corporation");
    reveal_strlit("vessel");
    assert("government"@.len() == 10);
    assert("corporation"@.len() == 11);
    assert("vessel"@.len() == 6);
    assert("corporation"@ != "government"@);
    assert("vessel"@ != "government"@);
    assert("vessel"@ != "corporation"@);
}

} // verus!
