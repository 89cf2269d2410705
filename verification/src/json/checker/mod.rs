//! The ordered passes that close the graph once every record is decoded.

pub mod common;

use crate::api::{views, ADResults, ADResultsView, MappingsView};
use crate::enums::ldaptype::Type;
use crate::json::checker::common::{
    aces_typed, add_affected_computers, add_affected_computers_for_ou, add_childobjects_members,
    add_contained_by_for, add_default_groups, add_default_users, add_trustdomain,
    add_type_for_ace, add_type_for_allowtedtoact, allowed_typed, computer_views,
    computers_among, dc_domain_sid, dc_members, default_groups, delegation_resolved,
    domain_views, group_member_resolved, group_views, links_resolved, nt_authority,
    replace_fqdn_by_sid, replace_guid_gplink, replace_sid_members, template_member,
    template_views, templates_enabled_change_displayname_to_sid, unit_scope, user_views,
    with_children, with_container, with_trust_domains,
};
use crate::mappings::{Entries, StringMap};
use crate::objects::aiaca::AIACA;
use crate::objects::certtemplate::{CertTemplate, CertTemplateView};
use crate::objects::common::{
    empty_gpo_change, GPOChangeView, LdapObject, MemberView, NodeCommonView,
};
use crate::objects::computer::{Computer, ComputerView};
use crate::objects::container::Container;
use crate::objects::domain::{Domain, DomainView};
use crate::objects::enterpriseca::{EnterpriseCA, EnterpriseCAView};
use crate::objects::fsp::Fsp;
use crate::objects::gpo::Gpo;
use crate::objects::group::{Group, GroupView};
use crate::objects::inssuancepolicie::IssuancePolicie;
use crate::objects::ntauthstore::NtAuthStore;
use crate::objects::ou::{Ou, OuView};
use crate::objects::rootca::RootCA;
use crate::objects::trust::{trust_views, Trust, TrustView};
use crate::objects::user::{User, UserView};
use crate::text::spec_to_uppercase;
use vstd::prelude::*;

verus! {

/// The common part of a node once its entries are typed and its parent is
/// found.
pub open spec fn typed_and_placed(
    c: NodeCommonView,
    dn_sid: Entries,
    sid_type: Entries,
) -> NodeCommonView {
    with_container(aces_typed(c, sid_type), dn_sid, sid_type)
}

/// Every node of `after` is the node of `before` at the same place with its
/// common part changed by `f` and nothing else changed.
pub open spec fn each_common<T: LdapObject>(
    before: Seq<T>,
    after: Seq<T>,
    f: spec_fn(NodeCommonView) -> NodeCommonView,
) -> bool {
    &&& after.len() == before.len()
    &&& forall|i: int|
        0 <= i < before.len() ==> (#[trigger] after[i]).common_spec()@ == f(
            before[i].common_spec()@,
        ) && after[i].rest() == before[i].rest()
}

/// The users after all the passes: delegation targets resolved, the account
/// of the NT authority added when there is a user, entries typed and parents
/// found.
pub open spec fn users_checked(
    users: Seq<UserView>,
    m: MappingsView,
    domain_upper: Seq<char>,
) -> Seq<UserView> {
    let resolved = users.map_values(
        |u: UserView|
            UserView { common: delegation_resolved(u.common, Type::User, m.fqdn_sid), ..u },
    );
    let all = if resolved.len() > 0 {
        resolved.push(nt_authority(domain_upper, resolved[0]))
    } else {
        resolved
    };
    all.map_values(
        |u: UserView| UserView { common: typed_and_placed(u.common, m.dn_sid, m.sid_type), ..u },
    )
}

/// The computers after delegation targets are resolved.
pub open spec fn computers_resolved(computers: Seq<ComputerView>, m: MappingsView) -> Seq<
    ComputerView,
> {
    computers.map_values(
        |c: ComputerView|
            ComputerView {
                common: delegation_resolved(c.common, Type::Computer, m.fqdn_sid),
                ..c
            },
    )
}

/// The groups after all the passes: members resolved, the well-known groups
/// added, entries typed and parents found.
pub open spec fn groups_checked(
    groups: Seq<GroupView>,
    computers: Seq<ComputerView>,
    trusts: Seq<TrustView>,
    m: MappingsView,
    domain_upper: Seq<char>,
) -> Seq<GroupView> {
    let resolved = groups.map_values(
        |g: GroupView|
            GroupView {
                members: g.members.map_values(
                    |x: MemberView| group_member_resolved(x, m.dn_sid, m.sid_type, trusts),
                ),
                ..g
            },
    );
    let controllers = computers_resolved(computers, m);
    let all = resolved + default_groups(
        domain_upper,
        dc_members(controllers, controllers.len()),
        dc_domain_sid(controllers, controllers.len()),
    );
    all.map_values(
        |g: GroupView| GroupView { common: typed_and_placed(g.common, m.dn_sid, m.sid_type), ..g },
    )
}

/// The scope of the policies of the domain at place `i`: every computer of
/// the index for the first domain, what it was for the others.
pub open spec fn domain_scope(d: DomainView, i: int, sid_type: Entries) -> GPOChangeView {
    if i == 0 {
        GPOChangeView {
            affected_computers: computers_among(sid_type, sid_type.len()),
            ..empty_gpo_change()
        }
    } else {
        d.gpo_changes
    }
}

/// The domains after all the passes: entries typed, children listed, the
/// scope of the first domain's policies set, policy links resolved, and the
/// trusted domains materialized.
pub open spec fn domains_checked(
    domains: Seq<DomainView>,
    trusts: Seq<TrustView>,
    m: MappingsView,
) -> Seq<DomainView> {
    with_trust_domains(
        Seq::new(
            domains.len(),
            |i: int|
                DomainView {
                    common: links_resolved(
                        with_children(
                            aces_typed(domains[i].common, m.sid_type),
                            m.dn_sid,
                            m.sid_type,
                        ),
                        m.dn_sid,
                    ),
                    gpo_changes: domain_scope(domains[i], i, m.sid_type),
                    ..domains[i]
                },
        ),
        trusts,
    )
}

/// A computer after all the passes.
pub open spec fn computer_checked(c: ComputerView, m: MappingsView) -> ComputerView {
    ComputerView {
        common: typed_and_placed(
            delegation_resolved(c.common, Type::Computer, m.fqdn_sid),
            m.dn_sid,
            m.sid_type,
        ),
        allowed_to_act: c.allowed_to_act.map_values(|x: MemberView| allowed_typed(x, m.sid_type)),
        ..c
    }
}

/// An organizational unit after all the passes.
pub open spec fn ou_checked(ou: OuView, m: MappingsView) -> OuView {
    OuView {
        common: links_resolved(
            with_container(
                with_children(aces_typed(ou.common, m.sid_type), m.dn_sid, m.sid_type),
                m.dn_sid,
                m.sid_type,
            ),
            m.dn_sid,
        ),
        gpo_changes: unit_scope(ou, m.dn_sid, m.sid_type),
        ..ou
    }
}

/// An enterprise authority after all the passes.
pub open spec fn enterpriseca_checked(
    ca: EnterpriseCAView,
    templates: Seq<CertTemplateView>,
    m: MappingsView,
) -> EnterpriseCAView {
    EnterpriseCAView {
        common: typed_and_placed(ca.common, m.dn_sid, m.sid_type),
        enabled_cert_templates: ca.certificate_templates.map_values(
            |n: Seq<char>| template_member(n, templates),
        ),
        ..ca
    }
}

/// The common part of a container after all the passes.
pub open spec fn container_checked(c: NodeCommonView, m: MappingsView) -> NodeCommonView {
    with_container(
        with_children(aces_typed(c, m.sid_type), m.dn_sid, m.sid_type),
        m.dn_sid,
        m.sid_type,
    )
}

/// The index that four maps make up.
pub open spec fn index_of_maps(
    dn_sid: Entries,
    sid_type: Entries,
    fqdn_sid: Entries,
    fqdn_ip: Entries,
) -> MappingsView {
    MappingsView { dn_sid, sid_type, fqdn_sid, fqdn_ip }
}

/// Completes the graph: runs the passes of the resolver in their order over
/// the decoded collections and the index. The index is only read.
#[verifier::rlimit(100)]
pub fn check_all_result(
    domain: &str,
    vec_users: &mut Vec<User>,
    vec_groups: &mut Vec<Group>,
    vec_computers: &mut Vec<Computer>,
    vec_ous: &mut Vec<Ou>,
    vec_domains: &mut Vec<Domain>,
    vec_gpos: &mut Vec<Gpo>,
    _vec_fsps: &mut Vec<Fsp>,
    vec_containers: &mut Vec<Container>,
    vec_trusts: &mut Vec<Trust>,
    vec_ntauthstores: &mut Vec<NtAuthStore>,
    vec_aiacas: &mut Vec<AIACA>,
    vec_rootcas: &mut Vec<RootCA>,
    vec_enterprisecas: &mut Vec<EnterpriseCA>,
    vec_certtemplates: &mut Vec<CertTemplate>,
    vec_issuancepolicies: &mut Vec<IssuancePolicie>,
    dn_sid: &StringMap,
    sid_type: &StringMap,
    fqdn_sid: &StringMap,
    _fqdn_ip: &StringMap,
)
    ensures
        views(final(vec_users)@) == users_checked(
            views(old(vec_users)@),
            index_of_maps(dn_sid@, sid_type@, fqdn_sid@, _fqdn_ip@),
            spec_to_uppercase(domain@),
        ),
        views(final(vec_groups)@) == groups_checked(
            views(old(vec_groups)@),
            views(old(vec_computers)@),
            trust_views(old(vec_trusts)@),
            index_of_maps(dn_sid@, sid_type@, fqdn_sid@, _fqdn_ip@),
            spec_to_uppercase(domain@),
        ),
        final(vec_computers)@.len() == old(vec_computers)@.len(),
        forall|i: int|
            0 <= i < old(vec_computers)@.len() ==> (#[trigger] final(vec_computers)@[i])@
                == computer_checked(
                old(vec_computers)@[i]@,
                index_of_maps(dn_sid@, sid_type@, fqdn_sid@, _fqdn_ip@),
            ),
        final(vec_ous)@.len() == old(vec_ous)@.len(),
        forall|i: int|
            0 <= i < old(vec_ous)@.len() ==> (#[trigger] final(vec_ous)@[i])@ == ou_checked(
                old(vec_ous)@[i]@,
                index_of_maps(dn_sid@, sid_type@, fqdn_sid@, _fqdn_ip@),
            ),
        views(final(vec_domains)@) == domains_checked(
            views(old(vec_domains)@),
            trust_views(old(vec_trusts)@),
            index_of_maps(dn_sid@, sid_type@, fqdn_sid@, _fqdn_ip@),
        ),
        each_common(
            old(vec_gpos)@,
            final(vec_gpos)@,
            |c: NodeCommonView| typed_and_placed(c, dn_sid@, sid_type@),
        ),
        *final(_vec_fsps) == *old(_vec_fsps),
        each_common(
            old(vec_containers)@,
            final(vec_containers)@,
            |c: NodeCommonView|
                container_checked(c, index_of_maps(dn_sid@, sid_type@, fqdn_sid@, _fqdn_ip@)),
        ),
        *final(vec_trusts) == *old(vec_trusts),
        each_common(
            old(vec_ntauthstores)@,
            final(vec_ntauthstores)@,
            |c: NodeCommonView| typed_and_placed(c, dn_sid@, sid_type@),
        ),
        each_common(
            old(vec_aiacas)@,
            final(vec_aiacas)@,
            |c: NodeCommonView| typed_and_placed(c, dn_sid@, sid_type@),
        ),
        each_common(
            old(vec_rootcas)@,
            final(vec_rootcas)@,
            |c: NodeCommonView| typed_and_placed(c, dn_sid@, sid_type@),
        ),
        final(vec_enterprisecas)@.len() == old(vec_enterprisecas)@.len(),
        forall|i: int|
            0 <= i < old(vec_enterprisecas)@.len() ==> (#[trigger] final(vec_enterprisecas)@[i])@
                == enterpriseca_checked(
                old(vec_enterprisecas)@[i]@,
                views(old(vec_certtemplates)@),
                index_of_maps(dn_sid@, sid_type@, fqdn_sid@, _fqdn_ip@),
            ),
        each_common(
            old(vec_certtemplates)@,
            final(vec_certtemplates)@,
            |c: NodeCommonView| typed_and_placed(c, dn_sid@, sid_type@),
        ),
        each_common(
            old(vec_issuancepolicies)@,
            final(vec_issuancepolicies)@,
            |c: NodeCommonView| typed_and_placed(c, dn_sid@, sid_type@),
        ),
{
    let ghost m = index_of_maps(dn_sid@, sid_type@, fqdn_sid@, _fqdn_ip@);
    let ghost domain_upper = spec_to_uppercase(domain@);
    let ghost users0 = vec_users@;
    let ghost groups0 = vec_groups@;
    let ghost computers0 = vec_computers@;
    let ghost templates0 = vec_certtemplates@;
    assert(template_views(templates0) =~= views(templates0));

    // Identifiers in place of names.
    replace_fqdn_by_sid(Type::User, vec_users, fqdn_sid);
    replace_fqdn_by_sid(Type::Computer, vec_computers, fqdn_sid);
    templates_enabled_change_displayname_to_sid(vec_certtemplates, vec_enterprisecas);
    replace_sid_members(vec_groups, dn_sid, sid_type, vec_trusts);
    let ghost users1 = vec_users@;
    let ghost groups1 = vec_groups@;
    let ghost computers1 = vec_computers@;
    proof {
        assert(views(computers1) =~= computers_resolved(views(computers0), m));
        assert(computer_views(computers1) =~= views(computers1));
    }

    // Well-known principals.
    add_default_groups(vec_groups, vec_computers, String::from_str(domain));
    add_default_users(vec_users, String::from_str(domain));
    let ghost users2 = vec_users@;
    let ghost groups2 = vec_groups@;
    proof {
        assert(group_views(groups1) =~= views(groups1));
        assert(group_views(groups2) =~= views(groups2));
        assert(user_views(users1) =~= views(users1));
        assert(user_views(users2) =~= views(users2));
    }

    // The type of every principal.
    add_type_for_ace(vec_users, sid_type);
    add_type_for_ace(vec_groups, sid_type);
    add_type_for_ace(vec_computers, sid_type);
    add_type_for_ace(vec_gpos, sid_type);
    add_type_for_ace(vec_ous, sid_type);
    add_type_for_ace(vec_domains, sid_type);
    add_type_for_ace(vec_containers, sid_type);
    add_type_for_ace(vec_ntauthstores, sid_type);
    add_type_for_ace(vec_aiacas, sid_type);
    add_type_for_ace(vec_rootcas, sid_type);
    add_type_for_ace(vec_enterprisecas, sid_type);
    add_type_for_ace(vec_certtemplates, sid_type);
    add_type_for_ace(vec_issuancepolicies, sid_type);
    add_type_for_allowtedtoact(vec_computers, sid_type);

    // Containment, downwards and upwards.
    add_childobjects_members(vec_ous, dn_sid, sid_type);
    add_childobjects_members(vec_domains, dn_sid, sid_type);
    add_childobjects_members(vec_containers, dn_sid, sid_type);
    add_contained_by_for(vec_users, dn_sid, sid_type);
    add_contained_by_for(vec_groups, dn_sid, sid_type);
    add_contained_by_for(vec_computers, dn_sid, sid_type);
    add_contained_by_for(vec_gpos, dn_sid, sid_type);
    add_contained_by_for(vec_ous, dn_sid, sid_type);
    add_contained_by_for(vec_containers, dn_sid, sid_type);
    add_contained_by_for(vec_ntauthstores, dn_sid, sid_type);
    add_contained_by_for(vec_aiacas, dn_sid, sid_type);
    add_contained_by_for(vec_rootcas, dn_sid, sid_type);
    add_contained_by_for(vec_enterprisecas, dn_sid, sid_type);
    add_contained_by_for(vec_certtemplates, dn_sid, sid_type);
    add_contained_by_for(vec_issuancepolicies, dn_sid, sid_type);

    // The scope of the policies, and the policies themselves.
    add_affected_computers(vec_domains, sid_type);
    add_affected_computers_for_ou(vec_ous, dn_sid, sid_type);
    replace_guid_gplink(vec_ous, dn_sid);
    replace_guid_gplink(vec_domains, dn_sid);
    let ghost domains4 = vec_domains@;

    if vec_trusts.len() > 0 {
        add_trustdomain(vec_domains, vec_trusts);
    }
    proof {
        assert(domain_views(domains4) =~= views(domains4));
        assert(domain_views(vec_domains@) =~= views(vec_domains@));
        assert(views(domains4) =~= Seq::new(
            old(vec_domains)@.len(),
            |i: int|
                DomainView {
                    common: links_resolved(
                        with_children(
                            aces_typed(views(old(vec_domains)@)[i].common, m.sid_type),
                            m.dn_sid,
                            m.sid_type,
                        ),
                        m.dn_sid,
                    ),
                    gpo_changes: domain_scope(views(old(vec_domains)@)[i], i, m.sid_type),
                    ..views(old(vec_domains)@)[i]
                },
        ));
        // Users, stage by stage.
        let users_resolved = views(users0).map_values(
            |u: UserView|
                UserView { common: delegation_resolved(u.common, Type::User, m.fqdn_sid), ..u },
        );
        assert(views(users1) =~= users_resolved);
        let users_all = if users_resolved.len() > 0 {
            users_resolved.push(nt_authority(domain_upper, users_resolved[0]))
        } else {
            users_resolved
        };
        assert(views(users2) =~= users_all);
        assert(vec_users@.len() == users2.len());
        assert forall|i: int| 0 <= i < users2.len() implies #[trigger] views(vec_users@)[i] == (
        UserView {
            common: typed_and_placed(users_all[i].common, m.dn_sid, m.sid_type),
            ..users_all[i]
        }) by {
            assert(views(users2)[i] == users2[i]@);
            assert(views(vec_users@)[i] == vec_users@[i]@);
        }
        assert(views(vec_users@) =~= users_checked(views(users0), m, domain_upper));
        // Groups, stage by stage.
        let trusts = trust_views(vec_trusts@);
        let groups_resolved = views(groups0).map_values(
            |g: GroupView|
                GroupView {
                    members: g.members.map_values(
                        |x: MemberView| group_member_resolved(x, m.dn_sid, m.sid_type, trusts),
                    ),
                    ..g
                },
        );
        assert forall|i: int| 0 <= i < groups0.len() implies #[trigger] views(groups1)[i]
            == groups_resolved[i] by {
            assert(views(groups1)[i] == groups1[i]@);
            assert(views(groups0)[i] == groups0[i]@);
            assert(groups1[i]@.members =~= groups_resolved[i].members);
        }
        assert(views(groups1) =~= groups_resolved);
        let controllers = computers_resolved(views(computers0), m);
        let groups_all = groups_resolved + default_groups(
            domain_upper,
            dc_members(controllers, controllers.len()),
            dc_domain_sid(controllers, controllers.len()),
        );
        assert(views(groups2) =~= groups_all);
        assert(vec_groups@.len() == groups2.len());
        assert forall|i: int| 0 <= i < groups2.len() implies #[trigger] views(vec_groups@)[i] == (
        GroupView {
            common: typed_and_placed(groups_all[i].common, m.dn_sid, m.sid_type),
            ..groups_all[i]
        }) by {
            assert(views(groups2)[i] == groups2[i]@);
            assert(views(vec_groups@)[i] == vec_groups@[i]@);
        }
        assert(views(vec_groups@) =~= groups_checked(
            views(groups0),
            views(computers0),
            trust_views(vec_trusts@),
            m,
            domain_upper,
        ));
    }
}

/// No pass gives a node another identifier: the passes annotate the nodes
/// and never key them anew.
pub proof fn lemma_passes_keep_identifier(
    c: NodeCommonView,
    object_type: Type,
    dn_sid: Entries,
    sid_type: Entries,
    fqdn_sid: Entries,
)
    ensures
        delegation_resolved(c, object_type, fqdn_sid).object_identifier == c.object_identifier,
        aces_typed(c, sid_type).object_identifier == c.object_identifier,
        with_children(c, dn_sid, sid_type).object_identifier == c.object_identifier,
        with_container(c, dn_sid, sid_type).object_identifier == c.object_identifier,
        links_resolved(c, dn_sid).object_identifier == c.object_identifier,
        typed_and_placed(c, dn_sid, sid_type).object_identifier == c.object_identifier,
{
}

/// Whether `after` holds the collections of `before` with the graph
/// completed: every collection is what the passes of the resolver, run in
/// their order, make of it, and the index and the trusts are as they were.
pub open spec fn is_checked(before: ADResults, after: ADResults, domain: Seq<char>) -> bool {
    let m = before.mappings@;
    &&& after.mappings == before.mappings
    &&& after.trusts == before.trusts
    &&& after.fsps == before.fsps
    &&& views(after.users@) == users_checked(views(before.users@), m, spec_to_uppercase(domain))
    &&& views(after.groups@) == groups_checked(
        views(before.groups@),
        views(before.computers@),
        trust_views(before.trusts@),
        m,
        spec_to_uppercase(domain),
    )
    &&& after.computers@.len() == before.computers@.len()
    &&& forall|i: int|
        0 <= i < before.computers@.len() ==> (#[trigger] after.computers@[i])@ == computer_checked(
            before.computers@[i]@,
            m,
        )
    &&& after.ous@.len() == before.ous@.len()
    &&& forall|i: int|
        0 <= i < before.ous@.len() ==> (#[trigger] after.ous@[i])@ == ou_checked(
            before.ous@[i]@,
            m,
        )
    &&& views(after.domains@) == domains_checked(
        views(before.domains@),
        trust_views(before.trusts@),
        m,
    )
    &&& each_common(
        before.gpos@,
        after.gpos@,
        |c: NodeCommonView| typed_and_placed(c, m.dn_sid, m.sid_type),
    )
    &&& each_common(
        before.containers@,
        after.containers@,
        |c: NodeCommonView| container_checked(c, m),
    )
    &&& each_common(
        before.ntauthstores@,
        after.ntauthstores@,
        |c: NodeCommonView| typed_and_placed(c, m.dn_sid, m.sid_type),
    )
    &&& each_common(
        before.aiacas@,
        after.aiacas@,
        |c: NodeCommonView| typed_and_placed(c, m.dn_sid, m.sid_type),
    )
    &&& each_common(
        before.rootcas@,
        after.rootcas@,
        |c: NodeCommonView| typed_and_placed(c, m.dn_sid, m.sid_type),
    )
    &&& after.enterprisecas@.len() == before.enterprisecas@.len()
    &&& forall|i: int|
        0 <= i < before.enterprisecas@.len() ==> (#[trigger] after.enterprisecas@[i])@
            == enterpriseca_checked(before.enterprisecas@[i]@, views(before.certtemplates@), m)
    &&& each_common(
        before.certtemplates@,
        after.certtemplates@,
        |c: NodeCommonView| typed_and_placed(c, m.dn_sid, m.sid_type),
    )
    &&& each_common(
        before.issuancepolicies@,
        after.issuancepolicies@,
        |c: NodeCommonView| typed_and_placed(c, m.dn_sid, m.sid_type),
    )
}

/// Completes the graph of a run.
pub fn check_ad_result(domain: &str, ad_results: &mut ADResults)
    ensures
        is_checked(*old(ad_results), *final(ad_results), domain@),
{
    check_all_result(
        domain,
        &mut ad_results.users,
        &mut ad_results.groups,
        &mut ad_results.computers,
        &mut ad_results.ous,
        &mut ad_results.domains,
        &mut ad_results.gpos,
        &mut ad_results.fsps,
        &mut ad_results.containers,
        &mut ad_results.trusts,
        &mut ad_results.ntauthstores,
        &mut ad_results.aiacas,
        &mut ad_results.rootcas,
        &mut ad_results.enterprisecas,
        &mut ad_results.certtemplates,
        &mut ad_results.issuancepolicies,
        &ad_results.mappings.dn_sid,
        &ad_results.mappings.sid_type,
        &ad_results.mappings.fqdn_sid,
        &ad_results.mappings.fqdn_ip,
    );
}

} // verus!
