//! The upstreams of the tokens: which are there, and which are being created.
//!
//! `I` is an upstream, and `N` is what those wait for that found one being created.
use vstd::prelude::*;

use crate::linear_map::LinearMap;

verus! {

/// What there is of an upstream.
pub enum InstanceEntry<I, N> {
    Ready(I),
    Creating(N),
}

/// What a downstream is to do about the upstream of its token.
#[derive(Clone, Copy, Debug, PartialEq, Eq, Structural)]
pub enum Admission {
    /// Join the upstream that is there.
    Join,
    /// Wait for the one that is being created, and ask again.
    Wait,
    /// Create it, and report to [`InstanceRegistry::complete`].
    Create,
}

/// Whether an upstream is finished: all of its tasks are.
pub fn is_finished(tasks: &Vec<bool>) -> (finished: bool)
    ensures
        finished == (forall|i: int| 0 <= i < tasks@.len() ==> #[trigger] tasks@[i]),
        finished <==> !tasks@.contains(false),
{
    let mut i: usize = 0;
    while i < tasks.len()
        invariant
            i <= tasks@.len(),
            forall|j: int| 0 <= j < i ==> #[trigger] tasks@[j],
        decreases tasks@.len() - i,
    {
        if !tasks[i] {
            assert(!tasks@[i as int]);
            return false;
        }
        i = i + 1;
    }
    true
}

/// What a downstream is to do about the upstream of its token, where `finished` is whether the one
/// that is there is finished.
pub open spec fn admission<I, N>(
    instances: Map<Seq<char>, InstanceEntry<I, N>>,
    token: Seq<char>,
    finished: bool,
) -> Admission {
    if !instances.contains_key(token) {
        Admission::Create
    } else {
        match instances[token] {
            InstanceEntry::Ready(_) => if finished {
                Admission::Create
            } else {
                Admission::Join
            },
            InstanceEntry::Creating(_) => Admission::Wait,
        }
    }
}

/// The upstreams after a downstream was told what to do.
pub open spec fn after_admission<I, N>(
    instances: Map<Seq<char>, InstanceEntry<I, N>>,
    token: Seq<char>,
    finished: bool,
    notify: N,
) -> Map<Seq<char>, InstanceEntry<I, N>> {
    match admission(instances, token, finished) {
        Admission::Create => instances.insert(token, InstanceEntry::Creating(notify)),
        _ => instances,
    }
}

/// The upstreams after one was created, or failed to be.
pub open spec fn after_completion<I, N>(
    instances: Map<Seq<char>, InstanceEntry<I, N>>,
    token: Seq<char>,
    created: Option<I>,
) -> Map<Seq<char>, InstanceEntry<I, N>> {
    match created {
        Some(instance) => instances.insert(token, InstanceEntry::Ready(instance)),
        None => instances.remove(token),
    }
}

/// The upstreams, by token.
pub struct InstanceRegistry<I, N> {
    instances: LinearMap<String, InstanceEntry<I, N>>,
}

impl<I, N> View for InstanceRegistry<I, N> {
    type V = Map<Seq<char>, InstanceEntry<I, N>>;

    closed spec fn view(&self) -> Map<Seq<char>, InstanceEntry<I, N>> {
        self.instances@
    }
}

impl<I, N> InstanceRegistry<I, N> {
    /// A registry without upstreams.
    pub fn new() -> (registry: Self)
        ensures
            registry@ == Map::<Seq<char>, InstanceEntry<I, N>>::empty(),
    {
        InstanceRegistry { instances: LinearMap::new() }
    }

    /// What there is of the upstream of a token.
    pub fn get(&self, token: &String) -> (entry: Option<&InstanceEntry<I, N>>)
        ensures
            entry == (if self@.contains_key(token@) {
                Some(&self@[token@])
            } else {
                None
            }),
    {
        self.instances.get(token)
    }

    /// Decides what a downstream is to do about the upstream of its token. One that is finished
    /// counts as none. Whoever is told to create it is the only one; those that ask meanwhile wait
    /// for `notify`.
    pub fn get_or_create(&mut self, token: &String, finished: bool, notify: N) -> (told: Admission)
        ensures
            told == admission(old(self)@, token@, finished),
            final(self)@ == after_admission(old(self)@, token@, finished, notify),
    {
        let told = match self.instances.get(token) {
            Some(InstanceEntry::Ready(_)) => if finished {
                Admission::Create
            } else {
                Admission::Join
            },
            Some(InstanceEntry::Creating(_)) => Admission::Wait,
            None => Admission::Create,
        };
        if told == Admission::Create {
            self.instances.insert(token.clone(), InstanceEntry::Creating(notify));
        }
        told
    }

    /// Takes the upstream that was created, or that none was.
    pub fn complete(&mut self, token: &String, created: Option<I>)
        ensures
            final(self)@ == after_completion(old(self)@, token@, created),
    {
        match created {
            Some(instance) => {
                self.instances.insert(token.clone(), InstanceEntry::Ready(instance));
            },
            None => {
                let _ = self.instances.remove(token);
            },
        }
    }
}

/// While an upstream is being created everyone else waits for it: a token never has two of them
/// in the making.
pub proof fn law_one_creation_at_a_time<I, N>(
    instances: Map<Seq<char>, InstanceEntry<I, N>>,
    token: Seq<char>,
    finished: bool,
    notify: N,
    later: bool,
    other: N,
)
    requires
        admission(instances, token, finished) == Admission::Create,
    ensures
        ({
            let creating = after_admission(instances, token, finished, notify);
            &&& admission(creating, token, later) == Admission::Wait
            &&& creating[token] == InstanceEntry::<I, N>::Creating(notify)
            &&& after_admission(creating, token, later, other) == creating
        }),
{
}

/// An upstream that was created is joined until it is finished, and then another one is created;
/// where the creation failed, the next downstream tries again.
pub proof fn law_completion_decides<I, N>(
    instances: Map<Seq<char>, InstanceEntry<I, N>>,
    token: Seq<char>,
    instance: I,
    finished: bool,
)
    ensures
        admission(after_completion(instances, token, Some(instance)), token, finished) == (
        if finished {
            Admission::Create
        } else {
            Admission::Join
        }),
        after_completion(instances, token, Some(instance))[token] == InstanceEntry::<I, N>::Ready(
            instance,
        ),
        admission(after_completion(instances, token, None), token, finished) == Admission::Create,
{
}

/// What happens to one token changes nothing for another.
pub proof fn law_tokens_are_independent<I, N>(
    instances: Map<Seq<char>, InstanceEntry<I, N>>,
    token: Seq<char>,
    other: Seq<char>,
    finished: bool,
    notify: N,
    created: Option<I>,
    later: bool,
)
    requires
        token != other,
    ensures
        admission(after_admission(instances, token, finished, notify), other, later) == admission(
            instances,
            other,
            later,
        ),
        admission(after_completion(instances, token, created), other, later) == admission(
            instances,
            other,
            later,
        ),
{
}

/// An upstream is joined exactly if it is there and not finished, and waited for exactly if it is
/// being created. In every other case it is created.
pub proof fn law_who_creates_and_who_joins<I, N>(
    instances: Map<Seq<char>, InstanceEntry<I, N>>,
    token: Seq<char>,
    finished: bool,
)
    ensures
        admission(instances, token, finished) == Admission::Join <==> instances.contains_key(token)
            && instances[token] is Ready && !finished,
        admission(instances, token, finished) == Admission::Wait <==> instances.contains_key(token)
            && instances[token] is Creating,
        admission(instances, token, finished) == Admission::Create <==> !instances.contains_key(
            token,
        ) || (instances[token] is Ready && finished),
{
}

/// Only who is told to create an upstream changes anything, and only for its own token. The
/// completion of a creation, too, changes nothing for another token.
pub proof fn law_other_tokens_are_kept<I, N>(
    instances: Map<Seq<char>, InstanceEntry<I, N>>,
    token: Seq<char>,
    finished: bool,
    notify: N,
    created: Option<I>,
)
    ensures
        admission(instances, token, finished) != Admission::Create ==> after_admission(
            instances,
            token,
            finished,
            notify,
        ) == instances,
        after_admission(instances, token, finished, notify).remove(token) == instances.remove(
            token,
        ),
        after_completion(instances, token, created).remove(token) == instances.remove(token),
        created is None ==> !after_completion(instances, token, created).contains_key(token),
{
    assert(after_admission(instances, token, finished, notify).remove(token) =~= instances.remove(
        token,
    ));
    assert(after_completion(instances, token, created).remove(token) =~= instances.remove(token));
}

/// Of two downstreams that ask for the upstream of a token which is not there, the first is told to
/// create it and the second to wait. Once it was created, whoever asks joins that very one, and
/// where its creation failed, the next one creates it.
pub proof fn law_first_creates_and_others_wait<I, N>(
    first: &mut InstanceRegistry<I, N>,
    token: String,
    finished: bool,
    notify: N,
    told_first: Admission,
    second: &mut InstanceRegistry<I, N>,
    later: bool,
    other: N,
    told_second: Admission,
    completed: &mut InstanceRegistry<I, N>,
    created: Option<I>,
    third: &mut InstanceRegistry<I, N>,
    another: N,
    told_third: Admission,
    entry: Option<&InstanceEntry<I, N>>,
)
    requires
        !old(first)@.contains_key(token@),
        call_ensures(
            InstanceRegistry::<I, N>::get_or_create,
            (first, &token, finished, notify),
            told_first,
        ),
        *old(second) == *final(first),
        call_ensures(
            InstanceRegistry::<I, N>::get_or_create,
            (second, &token, later, other),
            told_second,
        ),
        *old(completed) == *final(second),
        call_ensures(InstanceRegistry::<I, N>::complete, (completed, &token, created), ()),
        call_ensures(InstanceRegistry::<I, N>::get, (&*final(completed), &token), entry),
        *old(third) == *final(completed),
        call_ensures(
            InstanceRegistry::<I, N>::get_or_create,
            (third, &token, false, another),
            told_third,
        ),
    ensures
        told_first == Admission::Create,
        told_second == Admission::Wait,
        final(second)@[token@] == InstanceEntry::<I, N>::Creating(notify),
        created matches Some(instance) ==> told_third == Admission::Join && entry == Some(
            &InstanceEntry::<I, N>::Ready(instance),
        ),
        created is None ==> told_third == Admission::Create && entry is None,
{
}

/// What a downstream is told for its token, and what it reports, changes nothing for another token.
pub proof fn law_told_tokens_are_independent<I, N>(
    asked: &mut InstanceRegistry<I, N>,
    token: String,
    finished: bool,
    notify: N,
    told: Admission,
    completed: &mut InstanceRegistry<I, N>,
    created: Option<I>,
    other: String,
    before: Option<&InstanceEntry<I, N>>,
    between: Option<&InstanceEntry<I, N>>,
    after: Option<&InstanceEntry<I, N>>,
)
    requires
        token@ != other@,
        call_ensures(InstanceRegistry::<I, N>::get, (&*old(asked), &other), before),
        call_ensures(
            InstanceRegistry::<I, N>::get_or_create,
            (asked, &token, finished, notify),
            told,
        ),
        call_ensures(InstanceRegistry::<I, N>::get, (&*final(asked), &other), between),
        *old(completed) == *final(asked),
        call_ensures(InstanceRegistry::<I, N>::complete, (completed, &token, created), ()),
        call_ensures(InstanceRegistry::<I, N>::get, (&*final(completed), &other), after),
    ensures
        between == before,
        after == before,
{
}

/// An upstream is finished exactly if none of its tasks goes on, and no upstream is there at first.
pub proof fn law_upstreams_come_and_go<I, N>(
    tasks: Vec<bool>,
    finished: bool,
    registry: InstanceRegistry<I, N>,
    token: Seq<char>,
)
    requires
        call_ensures(is_finished, (&tasks,), finished),
        call_ensures(InstanceRegistry::<I, N>::new, (), registry),
    ensures
        finished <==> !tasks@.contains(false),
        !registry@.contains_key(token),
{
}

} // verus!
