use vstd::prelude::*;

use crate::access::string_views;
use crate::context::Host;
use crate::error::Error;

verus! {

/// The requested names that are not among `known`, in request order.
pub open spec fn unknown_names(requested: Seq<Seq<char>>, known: Seq<Seq<char>>) -> Seq<Seq<char>>
    decreases requested.len(),
{
    if requested.len() == 0 {
        Seq::empty()
    } else {
        let rest = unknown_names(requested.drop_last(), known);
        if known.contains(requested.last()) {
            rest
        } else {
            rest.push(requested.last())
        }
    }
}

/// The named hosts whose name is requested, in their own order.
pub open spec fn requested_hosts<R>(hosts: Seq<(String, Host<R>)>, requested: Seq<Seq<char>>) -> Seq<
    (String, Host<R>),
>
    decreases hosts.len(),
{
    if hosts.len() == 0 {
        Seq::empty()
    } else {
        let rest = requested_hosts(hosts.drop_last(), requested);
        if requested.contains(hosts.last().0@) {
            rest.push(hosts.last())
        } else {
            rest
        }
    }
}

/// The names of named hosts.
pub open spec fn host_names<R>(hosts: Seq<(String, Host<R>)>) -> Seq<Seq<char>> {
    hosts.map_values(|entry: (String, Host<R>)| entry.0@)
}

/// No name occurs twice among `hosts`.
pub open spec fn names_unique<R>(hosts: Seq<(String, Host<R>)>) -> bool {
    forall|i: int, j: int|
        0 <= i < hosts.len() && 0 <= j < hosts.len() && i != j ==> hosts[i].0@ != hosts[j].0@
}

/// Whether `name` is among `names`.
pub fn contains_name(names: &Vec<String>, name: &String) -> (r: bool)
    ensures
        r == string_views(names@).contains(name@),
{
    let n = names.len();
    let mut i: usize = 0;
    while i < n
        invariant
            n == names@.len(),
            i <= n,
            forall|j: int| 0 <= j < i ==> names@[j]@ != name@,
        decreases n - i,
    {
        if names[i] == *name {
            assert(string_views(names@)[i as int] == name@);
            return true;
        }
        i = i + 1;
    }
    assert forall|j: int| 0 <= j < string_views(names@).len() implies string_views(names@)[j]
        != name@ by {
        assert(names@[j]@ != name@);
    }
    false
}

/// The requested hosts that are not among `known`, in request order.
pub fn unknown_hosts(requested: &Vec<String>, known: &Vec<String>) -> (r: Vec<String>)
    ensures
        string_views(r@) == unknown_names(string_views(requested@), string_views(known@)),
{
    let mut r: Vec<String> = Vec::new();
    let n = requested.len();
    for i in 0..n
        invariant
            n == requested@.len(),
            string_views(r@) == unknown_names(
                string_views(requested@.take(i as int)),
                string_views(known@),
            ),
    {
        let ghost before = r@;
        assert(string_views(requested@.take(i + 1)).drop_last() =~= string_views(
            requested@.take(i as int),
        ));
        if !contains_name(known, &requested[i]) {
            r.push(requested[i].clone());
            assert(string_views(r@) =~= string_views(before).push(requested@[i as int]@));
        }
    }
    assert(requested@.take(n as int) =~= requested@);
    r
}

/// The names of `hosts`, in order.
pub fn names_of<R>(hosts: &Vec<(String, Host<R>)>) -> (r: Vec<String>)
    ensures
        string_views(r@) == host_names(hosts@),
{
    let mut r: Vec<String> = Vec::new();
    let n = hosts.len();
    for i in 0..n
        invariant
            n == hosts@.len(),
            r@.len() == i,
            string_views(r@) == host_names(hosts@.take(i as int)),
    {
        let ghost before = r@;
        r.push(hosts[i].0.clone());
        assert forall|j: int| 0 <= j < i + 1 implies #[trigger] string_views(r@)[j] == host_names(
            hosts@.take(i + 1),
        )[j] by {
            if j < i {
                assert(string_views(before)[j] == host_names(hosts@.take(i as int))[j]);
            }
        }
        assert(string_views(r@) =~= host_names(hosts@.take(i + 1)));
    }
    assert(hosts@.take(n as int) =~= hosts@);
    r
}

/// The hosts among `hosts` whose name is requested, in their own order.
pub fn select_hosts<R>(hosts: Vec<(String, Host<R>)>, requested: &Vec<String>) -> (r: Vec<
    (String, Host<R>),
>)
    ensures
        r@ == requested_hosts(hosts@, string_views(requested@)),
{
    let ghost all = hosts@;
    let total = hosts.len();
    let mut rest = hosts;
    let mut r: Vec<(String, Host<R>)> = Vec::new();
    let mut k: usize = 0;
    while rest.len() > 0
        invariant
            total == all.len(),
            k <= all.len(),
            rest@ == all.skip(k as int),
            r@ == requested_hosts(all.take(k as int), string_views(requested@)),
        decreases rest@.len(),
    {
        let entry = rest.remove(0);
        assert(all.take(k + 1).drop_last() =~= all.take(k as int));
        assert(all.take(k + 1).last() == entry);
        if contains_name(requested, &entry.0) {
            r.push(entry);
        }
        k = k + 1;
        assert(rest@ =~= all.skip(k as int));
    }
    assert(all.take(k as int) =~= all);
    r
}

/// The hosts to deploy for the names requested on the command line: an
/// error listing, in request order, every requested name that the script
/// does not define; otherwise the defined hosts that are requested.
pub fn plan_deployment<R>(requested: &Vec<String>, hosts: Vec<(String, Host<R>)>) -> (r: Result<
    Vec<(String, Host<R>)>,
    Error,
>)
    ensures
        unknown_names(string_views(requested@), host_names(hosts@)).len() > 0 ==> (r matches Err(
            Error::UnknownHosts(unknown),
        ) && string_views(unknown@) == unknown_names(string_views(requested@), host_names(hosts@))),
        unknown_names(string_views(requested@), host_names(hosts@)).len() == 0 ==> (r matches Ok(
            selected,
        ) && selected@ == requested_hosts(hosts@, string_views(requested@))),
{
    let known = names_of(&hosts);
    let unknown = unknown_hosts(requested, &known);
    if unknown.len() > 0 {
        return Err(Error::UnknownHosts(unknown));
    }
    Ok(select_hosts(hosts, requested))
}


/// A requested name is unknown exactly when it is not among the known ones.
pub proof fn lemma_unknown_names_exact(requested: Seq<Seq<char>>, known: Seq<Seq<char>>)
    ensures
        forall|n: Seq<char>| #[trigger]
            unknown_names(requested, known).contains(n) <==> (requested.contains(n)
                && !known.contains(n)),
    decreases requested.len(),
{
    broadcast use vstd::seq_lib::lemma_seq_contains_after_push;

    if requested.len() > 0 {
        let init = requested.drop_last();
        lemma_unknown_names_exact(init, known);
        assert(requested =~= init.push(requested.last()));
        assert forall|n: Seq<char>| #[trigger]
            unknown_names(requested, known).contains(n) <==> (requested.contains(n)
                && !known.contains(n)) by {
            let last = requested.last();
            let rest = unknown_names(init, known);
            assert(requested.contains(n) <==> init.contains(n) || n == last);
            assert(rest.contains(n) <==> init.contains(n) && !known.contains(n));
            if known.contains(last) {
                assert(unknown_names(requested, known) == rest);
            } else {
                assert(unknown_names(requested, known) == rest.push(last));
                assert(rest.push(last).contains(n) <==> n == last || rest.contains(n));
            }
        }
    } else {
        assert forall|n: Seq<char>| #[trigger]
            unknown_names(requested, known).contains(n) <==> (requested.contains(n)
                && !known.contains(n)) by {
            assert(unknown_names(requested, known) =~= Seq::<Seq<char>>::empty());
            if requested.contains(n) {
                let i = choose|i: int| 0 <= i < requested.len() && requested[i] == n;
            }
        }
    }
}

/// Every selected host is one of `hosts` and has a requested name.
pub proof fn lemma_requested_hosts_sound<R>(hosts: Seq<(String, Host<R>)>, requested: Seq<Seq<char>>)
    ensures
        forall|i: int|
            #![trigger requested_hosts(hosts, requested)[i]]
            0 <= i < requested_hosts(hosts, requested).len() ==> requested.contains(
                requested_hosts(hosts, requested)[i].0@,
            ) && hosts.contains(requested_hosts(hosts, requested)[i]),
    decreases hosts.len(),
{
    if hosts.len() > 0 {
        let init = hosts.drop_last();
        lemma_requested_hosts_sound(init, requested);
        let sel = requested_hosts(hosts, requested);
        assert forall|i: int| 0 <= i < sel.len() implies requested.contains(#[trigger] sel[i].0@)
            && hosts.contains(sel[i]) by {
            let rest = requested_hosts(init, requested);
            if i < rest.len() {
                assert(requested_hosts(init, requested)[i] == rest[i]);
                assert(requested.contains(rest[i].0@) && init.contains(rest[i]));
                let k = choose|k: int| 0 <= k < init.len() && init[k] == rest[i];
                assert(hosts[k] == sel[i]);
            } else {
                assert(hosts[hosts.len() - 1] == sel[i]);
            }
        }
    }
}

/// When the hosts' names are unique, the selected hosts' names are unique
/// too, and every requested name that some host has is selected.
pub proof fn lemma_requested_hosts_complete<R>(hosts: Seq<(String, Host<R>)>, requested: Seq<Seq<char>>)
    requires
        names_unique(hosts),
    ensures
        names_unique(requested_hosts(hosts, requested)),
        forall|n: Seq<char>|
            requested.contains(n) && #[trigger] host_names(hosts).contains(n) ==> exists|i: int|
                0 <= i < requested_hosts(hosts, requested).len() && requested_hosts(
                    hosts,
                    requested,
                )[i].0@ == n,
    decreases hosts.len(),
{
    if hosts.len() > 0 {
        let init = hosts.drop_last();
        assert(names_unique(init)) by {
            assert forall|i: int, j: int|
                0 <= i < init.len() && 0 <= j < init.len() && i != j implies init[i].0@
                != init[j].0@ by {
                assert(init[i] == hosts[i] && init[j] == hosts[j]);
            }
        }
        lemma_requested_hosts_complete(init, requested);
        lemma_requested_hosts_sound(init, requested);
        let rest = requested_hosts(init, requested);
        let sel = requested_hosts(hosts, requested);
        let last = hosts.last();
        assert forall|i: int| 0 <= i < rest.len() implies rest[i].0@ != last.0@ by {
            assert(requested_hosts(init, requested)[i] == rest[i]);
            assert(init.contains(rest[i]));
            let k = choose|k: int| 0 <= k < init.len() && init[k] == rest[i];
            assert(hosts[k] == init[k]);
            assert(hosts[hosts.len() - 1] == last);
        }
        assert forall|n: Seq<char>|
            requested.contains(n) && #[trigger] host_names(hosts).contains(n) implies exists|i: int|
                0 <= i < sel.len() && sel[i].0@ == n by {
            let k = choose|k: int| 0 <= k < host_names(hosts).len() && host_names(hosts)[k] == n;
            if k < hosts.len() - 1 {
                assert(host_names(init)[k] == n);
                assert(host_names(init).contains(n));
                let i = choose|i: int| 0 <= i < rest.len() && rest[i].0@ == n;
                assert(sel[i] == rest[i]);
            } else {
                assert(sel[sel.len() - 1].0@ == n);
            }
        }
    }
}

/// Deploying never runs a host twice, runs only hosts with requested
/// names, and, when no requested name is unknown, runs every requested host.
pub proof fn lemma_deployment_covers_request<R>(hosts: Seq<(String, Host<R>)>, requested: Seq<Seq<char>>)
    requires
        names_unique(hosts),
        unknown_names(requested, host_names(hosts)).len() == 0,
    ensures
        names_unique(requested_hosts(hosts, requested)),
        forall|i: int|
            0 <= i < requested_hosts(hosts, requested).len() ==> #[trigger] requested.contains(
                requested_hosts(hosts, requested)[i].0@,
            ),
        forall|n: Seq<char>|
            #[trigger] requested.contains(n) ==> exists|i: int|
                0 <= i < requested_hosts(hosts, requested).len() && requested_hosts(
                    hosts,
                    requested,
                )[i].0@ == n,
{
    lemma_unknown_names_exact(requested, host_names(hosts));
    lemma_requested_hosts_sound(hosts, requested);
    lemma_requested_hosts_complete(hosts, requested);
    assert forall|n: Seq<char>| #[trigger] requested.contains(n) implies exists|i: int|
        0 <= i < requested_hosts(hosts, requested).len() && requested_hosts(hosts, requested)[i].0@
            == n by {
        if !host_names(hosts).contains(n) {
            assert(unknown_names(requested, host_names(hosts)).contains(n));
        }
    }
}

} // verus!
