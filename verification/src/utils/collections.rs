//! Collecting a sequence of results: all the values when every result is `Ok`,
//! otherwise all the errors, so that every error is reported at once.

use vstd::prelude::*;

use super::syn::SynError;

verus! {

/// A collection that values can be pushed onto.
///
/// Its contents are described by a model: what a new collection of one value is,
/// and what pushing a value does to it.
pub trait Push<T>: Sized {
    type Model;

    /// The contents of the collection.
    spec fn model(&self) -> Self::Model;

    /// The contents after pushing `value` onto contents `model`.
    spec fn model_push(model: Self::Model, value: T) -> Self::Model;

    /// The contents of a collection made of `value` alone.
    spec fn model_new(value: T) -> Self::Model;

    fn push(&mut self, value: T)
        ensures
            final(self).model() == Self::model_push(old(self).model(), value),
    ;

    fn new_and_push(value: T) -> (r: Self)
        ensures
            r.model() == Self::model_new(value),
    ;
}

impl<T> Push<T> for Vec<T> {
    type Model = Seq<T>;

    open spec fn model(&self) -> Seq<T> {
        self@
    }

    open spec fn model_push(model: Seq<T>, value: T) -> Seq<T> {
        model.push(value)
    }

    open spec fn model_new(value: T) -> Seq<T> {
        seq![value]
    }

    fn push(&mut self, value: T) {
        Vec::push(self, value);
    }

    fn new_and_push(value: T) -> (r: Self) {
        let mut v: Vec<T> = Vec::new();
        Vec::push(&mut v, value);
        assert(v@ =~= seq![value]);
        v
    }
}

impl Push<SynError> for SynError {
    type Model = Seq<Seq<char>>;

    open spec fn model(&self) -> Seq<Seq<char>> {
        self.message_views()
    }

    open spec fn model_push(model: Seq<Seq<char>>, value: SynError) -> Seq<Seq<char>> {
        model + value.message_views()
    }

    open spec fn model_new(value: SynError) -> Seq<Seq<char>> {
        value.message_views()
    }

    fn push(&mut self, error: SynError) {
        self.combine(error);
    }

    fn new_and_push(value: SynError) -> (r: Self) {
        value
    }
}

/// The contents of a collection made of `first`, then each of `rest` pushed in order.
pub open spec fn fold_push<T, C: Push<T>>(first: T, rest: Seq<T>) -> C::Model
    decreases rest.len(),
{
    if rest.len() == 0 {
        C::model_new(first)
    } else {
        C::model_push(fold_push::<T, C>(first, rest.drop_last()), rest.last())
    }
}

/// The contents of a collection of all of `values` in order, `None` when there are none.
pub open spec fn collect_model<T, C: Push<T>>(values: Seq<T>) -> Option<C::Model> {
    if values.len() == 0 {
        None
    } else {
        Some(fold_push::<T, C>(values[0], values.skip(1)))
    }
}

/// Every result is `Ok`.
pub open spec fn all_ok<T, E>(results: Seq<Result<T, E>>) -> bool {
    forall|i: int| 0 <= i < results.len() ==> (#[trigger] results[i]) is Ok
}

/// The values of the `Ok` results, in order.
pub open spec fn oks<T, E>(results: Seq<Result<T, E>>) -> Seq<T>
    decreases results.len(),
{
    if results.len() == 0 {
        Seq::empty()
    } else {
        let rest = oks(results.drop_last());
        match results.last() {
            Ok(t) => rest.push(t),
            Err(_) => rest,
        }
    }
}

/// The errors of the `Err` results, in order.
pub open spec fn errs<T, E>(results: Seq<Result<T, E>>) -> Seq<E>
    decreases results.len(),
{
    if results.len() == 0 {
        Seq::empty()
    } else {
        let rest = errs(results.drop_last());
        match results.last() {
            Ok(_) => rest,
            Err(e) => rest.push(e),
        }
    }
}

/// Every result is `Ok` exactly when there is no error.
pub proof fn lemma_all_ok_iff_no_errs<T, E>(results: Seq<Result<T, E>>)
    ensures
        all_ok(results) <==> errs(results).len() == 0,
        all_ok(results) ==> oks(results).len() == results.len(),
    decreases results.len(),
{
    if results.len() > 0 {
        lemma_all_ok_iff_no_errs(results.drop_last());
        if all_ok(results) {
            assert(all_ok(results.drop_last())) by {
                assert forall|i: int| 0 <= i < results.drop_last().len() implies (
                #[trigger] results.drop_last()[i]) is Ok by {
                    assert(results[i] is Ok);
                }
            }
            assert(results[results.len() - 1] is Ok);
        } else {
            let i = choose|i: int| 0 <= i < results.len() && !((#[trigger] results[i]) is Ok);
            if i < results.len() - 1 {
                assert(results.drop_last()[i] == results[i]);
                assert(!all_ok(results.drop_last()));
            }
        }
    }
}

/// The model of the collection after pushing each value of `rest`, starting from `first` and `mid`.
proof fn lemma_fold_push_append<T, C: Push<T>>(first: T, mid: Seq<T>, value: T)
    ensures
        fold_push::<T, C>(first, mid.push(value)) == C::model_push(
            fold_push::<T, C>(first, mid),
            value,
        ),
{
    assert(mid.push(value).drop_last() =~= mid);
}

/// Collect results: all the values in order when every result is `Ok`
/// (`None` when there are no results), otherwise all the errors in order.
pub trait TryCollectAll<T, CollectT, E, CollectE>: Sized where
    CollectT: Push<T>,
    CollectE: Push<E>,
 {
    /// The results to collect.
    spec fn results(&self) -> Seq<Result<T, E>>;

    fn try_collect_all(self) -> (r: Result<Option<CollectT>, CollectE>)
        ensures
            all_ok(self.results()) ==> (r matches Ok(c) && match c {
                None => self.results().len() == 0,
                Some(c) => collect_model::<T, CollectT>(oks(self.results())) == Some(c.model()),
            }),
            !all_ok(self.results()) ==> (r matches Err(e) && collect_model::<E, CollectE>(
                errs(self.results()),
            ) == Some(e.model())),
    ;
}

impl<T, CollectT, E, CollectE> TryCollectAll<T, CollectT, E, CollectE> for Vec<Result<T, E>> where
    CollectT: Push<T>,
    CollectE: Push<E>,
 {
    open spec fn results(&self) -> Seq<Result<T, E>> {
        self@
    }

    fn try_collect_all(self) -> (r: Result<Option<CollectT>, CollectE>) {
        let mut rest = self;
        let ghost all = self@;
        let len = rest.len();
        let mut collect_t: Option<CollectT> = None;
        let mut collect_e: Option<CollectE> = None;
        let mut i: usize = 0;
        while i < len
            invariant
                i <= len,
                len == all.len(),
                rest@ == all.skip(i as int),
                collect_e is None ==> all_ok(all.take(i as int)),
                collect_e is None ==> match collect_t {
                    None => i == 0,
                    Some(c) => collect_model::<T, CollectT>(oks(all.take(i as int))) == Some(
                        c.model(),
                    ),
                },
                collect_e matches Some(e) ==> !all_ok(all.take(i as int))
                    && collect_model::<E, CollectE>(errs(all.take(i as int))) == Some(e.model()),
            decreases len - i,
        {
            let ghost prefix = all.take(i as int);
            let ghost next_prefix = all.take(i + 1);
            assert(next_prefix.drop_last() =~= prefix);
            assert(next_prefix.last() == all[i as int]);
            assert(rest@[0] == all[i as int]);
            let value = rest.remove(0);
            proof {
                lemma_all_ok_iff_no_errs(prefix);
                lemma_all_ok_iff_no_errs(next_prefix);
            }
            match value {
                Ok(t) => {
                    if collect_e.is_none() {
                        proof {
                            assert(all_ok(next_prefix)) by {
                                assert forall|j: int| 0 <= j < next_prefix.len() implies (
                                #[trigger] next_prefix[j]) is Ok by {
                                    if j < i {
                                        assert(next_prefix[j] == prefix[j]);
                                    }
                                }
                            }
                            assert(oks(next_prefix) == oks(prefix).push(t));
                        }
                        match collect_t {
                            None => {
                                proof {
                                    assert(oks(prefix).len() == 0);
                                    assert(oks(next_prefix) =~= seq![t]);
                                    assert(oks(next_prefix).skip(1) =~= Seq::<T>::empty());
                                }
                                collect_t = Some(CollectT::new_and_push(t));
                            },
                            Some(mut c) => {
                                proof {
                                    let o = oks(prefix);
                                    assert(o.len() > 0);
                                    lemma_fold_push_append::<T, CollectT>(o[0], o.skip(1), t);
                                    assert(o.push(t).skip(1) =~= o.skip(1).push(t));
                                    assert(o.push(t)[0] == o[0]);
                                }
                                c.push(t);
                                collect_t = Some(c);
                            },
                        }
                    } else {
                        proof {
                            assert(errs(next_prefix) == errs(prefix));
                            assert(!all_ok(next_prefix)) by {
                                let j = choose|j: int|
                                    0 <= j < prefix.len() && !((#[trigger] prefix[j]) is Ok);
                                assert(next_prefix[j] == prefix[j]);
                            }
                        }
                    }
                },
                Err(e) => {
                    proof {
                        assert(errs(next_prefix) == errs(prefix).push(e));
                        assert(!all_ok(next_prefix)) by {
                            assert(!(next_prefix[i as int] is Ok));
                        }
                    }
                    match collect_e {
                        None => {
                            proof {
                                assert(errs(prefix).len() == 0);
                                assert(errs(next_prefix) =~= seq![e]);
                                assert(errs(next_prefix).skip(1) =~= Seq::<E>::empty());
                            }
                            collect_e = Some(CollectE::new_and_push(e));
                        },
                        Some(mut c) => {
                            proof {
                                let o = errs(prefix);
                                assert(o.len() > 0);
                                lemma_fold_push_append::<E, CollectE>(o[0], o.skip(1), e);
                                assert(o.push(e).skip(1) =~= o.skip(1).push(e));
                                assert(o.push(e)[0] == o[0]);
                            }
                            c.push(e);
                            collect_e = Some(c);
                        },
                    }
                },
            }
            i = i + 1;
            assert(rest@ =~= all.skip(i as int));
        }
        assert(all.take(len as int) =~= all);
        match collect_e {
            Some(e) => Err(e),
            None => Ok(collect_t),
        }
    }
}

/// Collect results as [TryCollectAll::try_collect_all] does, with an empty collection
/// when there are no results.
pub fn try_collect_all_default<T, CollectT, E, CollectE>(results: Vec<Result<T, E>>) -> (r: Result<
    CollectT,
    CollectE,
>) where CollectT: Push<T> + Default, CollectE: Push<E>
    ensures
        all_ok(results@) ==> (r matches Ok(c) && (results@.len() > 0 ==> collect_model::<
            T,
            CollectT,
        >(oks(results@)) == Some(c.model()))),
        !all_ok(results@) ==> (r matches Err(e) && collect_model::<E, CollectE>(errs(results@))
            == Some(e.model())),
{
    let r: Result<Option<CollectT>, CollectE> = results.try_collect_all();
    match r {
        Ok(Some(c)) => Ok(c),
        Ok(None) => Ok(CollectT::default()),
        Err(e) => Err(e),
    }
}

/// Collect results into a vector of all the values, or all the errors combined into one.
pub fn try_collect_all_vec<T>(results: Vec<Result<T, SynError>>) -> (r: Result<Vec<T>, SynError>)
    ensures
        all_ok(results@) ==> (r matches Ok(v) && v@ == oks(results@)),
        !all_ok(results@) ==> (r matches Err(e) && e.message_views() == error_messages(
            results@,
        )),
{
    let ghost rs = results@;
    proof {
        lemma_error_messages(rs);
    }
    let r: Result<Option<Vec<T>>, SynError> = results.try_collect_all();
    match r {
        Ok(Some(c)) => {
            proof {
                lemma_collect_vec_model(oks(rs));
            }
            Ok(c)
        },
        Ok(None) => {
            assert(oks(rs) =~= Seq::<T>::empty());
            Ok(Vec::new())
        },
        Err(e) => Err(e),
    }
}

/// The messages of the errors among the results, in order.
pub open spec fn error_messages<T>(results: Seq<Result<T, SynError>>) -> Seq<Seq<char>>
    decreases results.len(),
{
    if results.len() == 0 {
        Seq::empty()
    } else {
        let rest = error_messages(results.drop_last());
        match results.last() {
            Ok(_) => rest,
            Err(e) => rest + e.message_views(),
        }
    }
}

/// The messages of errors, in order.
pub open spec fn concat_messages(errors: Seq<SynError>) -> Seq<Seq<char>>
    decreases errors.len(),
{
    if errors.len() == 0 {
        Seq::empty()
    } else {
        concat_messages(errors.drop_last()) + errors.last().message_views()
    }
}

proof fn lemma_fold_errors(first: SynError, rest: Seq<SynError>)
    ensures
        fold_push::<SynError, SynError>(first, rest) == first.message_views() + concat_messages(
            rest,
        ),
    decreases rest.len(),
{
    if rest.len() > 0 {
        lemma_fold_errors(first, rest.drop_last());
        assert(first.message_views() + concat_messages(rest) =~= (first.message_views()
            + concat_messages(rest.drop_last())) + rest.last().message_views());
    }
}

proof fn lemma_concat_first(errors: Seq<SynError>)
    requires
        errors.len() > 0,
    ensures
        concat_messages(errors) == errors[0].message_views() + concat_messages(errors.skip(1)),
    decreases errors.len(),
{
    if errors.len() == 1 {
        assert(errors.drop_last() =~= Seq::<SynError>::empty());
        assert(errors.skip(1) =~= Seq::<SynError>::empty());
        assert(concat_messages(errors.drop_last()) =~= Seq::<Seq<char>>::empty());
        assert(errors.last() == errors[0]);
        assert(concat_messages(errors) =~= errors[0].message_views());
    } else {
        lemma_concat_first(errors.drop_last());
        assert(errors.drop_last().skip(1) =~= errors.skip(1).drop_last());
        assert(errors.skip(1).last() == errors.last());
        assert(concat_messages(errors) =~= errors[0].message_views() + concat_messages(
            errors.skip(1),
        ));
    }
}

proof fn lemma_errs_messages<T>(results: Seq<Result<T, SynError>>)
    ensures
        concat_messages(errs(results)) == error_messages(results),
    decreases results.len(),
{
    if results.len() > 0 {
        lemma_errs_messages(results.drop_last());
        match results.last() {
            Ok(_) => {},
            Err(e) => {
                assert(errs(results).drop_last() =~= errs(results.drop_last()));
            },
        }
    }
}

/// Collecting the errors of results that are not all `Ok` gives their messages in order.
pub proof fn lemma_error_messages<T>(results: Seq<Result<T, SynError>>)
    ensures
        !all_ok(results) ==> collect_model::<SynError, SynError>(errs(results)) == Some(
            error_messages(results),
        ),
{
    lemma_all_ok_iff_no_errs(results);
    lemma_errs_messages(results);
    let es = errs(results);
    if es.len() > 0 {
        lemma_fold_errors(es[0], es.skip(1));
        lemma_concat_first(es);
    }
}

/// Collecting values into a vector gives the values themselves.
pub proof fn lemma_collect_vec_model<T>(values: Seq<T>)
    requires
        values.len() > 0,
    ensures
        collect_model::<T, Vec<T>>(values) == Some(values),
{
    lemma_fold_vec(values[0], values.skip(1));
    assert(seq![values[0]] + values.skip(1) =~= values);
}

proof fn lemma_fold_vec<T>(first: T, rest: Seq<T>)
    ensures
        fold_push::<T, Vec<T>>(first, rest) == seq![first] + rest,
    decreases rest.len(),
{
    if rest.len() > 0 {
        lemma_fold_vec(first, rest.drop_last());
        assert(seq![first] + rest =~= (seq![first] + rest.drop_last()).push(rest.last()));
    }
}

} // verus!
