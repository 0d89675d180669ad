//! The gauge families the engine owns, and the machinery shared by all
//! resource kinds.
//!
//! A [`GaugeFamily`] holds the series of one labeled metric: a mapping
//! from label tuple to current value, viewed as a `Map` from the sequence
//! of label values to the gauge value.  Families are replaced wholesale:
//! [`GaugeFamily::apply`] swaps in the observations of one successful
//! fetch as a single assignment, so a reader only ever sees the family
//! before or after a pass, never partially rewritten.

use crate::api::GetResouceError;
use vstd::prelude::*;

pub mod account;
pub mod balance;
pub mod cdn_endpoint;
pub mod droplets;
pub mod floating_ip;
pub mod vpc;

verus! {

/// One observation produced by a mapper: the label values that identify a
/// series within its family, and the value to publish for that series.
#[derive(Debug, Clone, PartialEq)]
pub struct Observation<V> {
    /// The label values, in the order of the family's label keys.
    pub labels: Vec<String>,
    /// The value to publish.
    pub value: V,
}

impl<V> View for Observation<V> {
    type V = (Seq<Seq<char>>, V);

    open spec fn view(&self) -> (Seq<Seq<char>>, V) {
        (self.labels.deep_view(), self.value)
    }
}

/// The views of a sequence of observations.
pub open spec fn obs_views<V>(s: Seq<Observation<V>>) -> Seq<(Seq<Seq<char>>, V)> {
    s.map_values(|o: Observation<V>| o@)
}

/// The mapping a sequence of labeled values describes, later entries
/// winning over earlier ones with the same label tuple.
pub open spec fn series_map<V>(s: Seq<(Seq<Seq<char>>, V)>) -> Map<Seq<Seq<char>>, V>
    decreases s.len(),
{
    if s.len() == 0 {
        Map::empty()
    } else {
        series_map(s.drop_last()).insert(s.last().0, s.last().1)
    }
}

/// A label tuple that no entry of `s` carries is absent from the mapping
/// `s` describes.
pub proof fn lemma_series_map_absent<V>(s: Seq<(Seq<Seq<char>>, V)>, l: Seq<Seq<char>>)
    requires
        forall|i: int| 0 <= i < s.len() ==> (#[trigger] s[i]).0 != l,
    ensures
        !series_map(s).dom().contains(l),
    decreases s.len(),
{
    if s.len() > 0 {
        assert(s.last() == s[s.len() - 1]);
        lemma_series_map_absent(s.drop_last(), l);
    }
}

/// One labeled metric family: the label tuples it currently reports, each
/// with its value.
#[derive(Debug, PartialEq)]
pub struct GaugeFamily<V> {
    series: Vec<Observation<V>>,
}

impl<V> View for GaugeFamily<V> {
    type V = Map<Seq<Seq<char>>, V>;

    closed spec fn view(&self) -> Map<Seq<Seq<char>>, V> {
        series_map(obs_views(self.series@))
    }
}

impl<V: Copy> GaugeFamily<V> {
    /// Creates an empty family, as registered at process start.
    pub fn new() -> (r: Self)
        ensures
            r@ == Map::<Seq<Seq<char>>, V>::empty(),
    {
        GaugeFamily { series: Vec::new() }
    }

    /// Empties the family: afterwards it reports no label tuple at all.
    pub fn reset(&mut self)
        ensures
            final(self)@ == Map::<Seq<Seq<char>>, V>::empty(),
    {
        self.series = Vec::new();
    }

    /// Replaces the family's contents with the given observations, as one
    /// swap: the previous series all retire, and the new ones become
    /// visible together.
    pub fn apply(&mut self, observations: Vec<Observation<V>>)
        ensures
            final(self)@ == series_map(obs_views(observations@)),
    {
        self.series = observations;
    }

    /// Looks up the value the family currently reports for a label tuple.
    pub fn get(&self, labels: &Vec<String>) -> (r: Option<V>)
        ensures
            match r {
                Some(v) => self@.dom().contains(labels.deep_view()) && v == self@[labels.deep_view()],
                None => !self@.dom().contains(labels.deep_view()),
            },
    {
        let ghost l = labels.deep_view();
        proof {
            assert(self.series@.take(self.series@.len() as int) =~= self.series@);
        }
        let mut j: usize = self.series.len();
        while j > 0
            invariant
                j <= self.series@.len(),
                self@.dom().contains(l) <==> series_map(
                    obs_views(self.series@.take(j as int)),
                ).dom().contains(l),
                self@.dom().contains(l) ==> self@[l] == series_map(
                    obs_views(self.series@.take(j as int)),
                )[l],
                l == labels.deep_view(),
            decreases j,
        {
            j = j - 1;
            proof {
                let sv = obs_views(self.series@.take(j + 1));
                assert(sv.drop_last() =~= obs_views(self.series@.take(j as int)));
                assert(sv.last() == self.series@[j as int]@);
            }
            if labels_eq(&self.series[j].labels, labels) {
                return Some(self.series[j].value);
            }
        }
        proof {
            assert(obs_views(self.series@.take(0)).len() == 0);
        }
        None
    }

    /// The series the family currently holds, for rendering.
    pub fn series(&self) -> (r: &Vec<Observation<V>>)
        ensures
            series_map(obs_views(r@)) == self@,
    {
        &self.series
    }
}

/// Compares two label tuples element by element.
pub fn labels_eq(a: &Vec<String>, b: &Vec<String>) -> (r: bool)
    ensures
        r == (a.deep_view() == b.deep_view()),
{
    if a.len() != b.len() {
        proof {
            assert(a.deep_view().len() == a@.len());
            assert(b.deep_view().len() == b@.len());
        }
        return false;
    }
    let mut i: usize = 0;
    while i < a.len()
        invariant
            i <= a@.len(),
            a@.len() == b@.len(),
            forall|k: int| 0 <= k < i ==> a.deep_view()[k] == b.deep_view()[k],
        decreases a@.len() - i,
    {
        let same = a[i] == b[i];
        if !same {
            proof {
                assert(a.deep_view()[i as int] == a@[i as int]@);
                assert(b.deep_view()[i as int] == b@[i as int]@);
            }
            return false;
        }
        proof {
            assert(a.deep_view()[i as int] == a@[i as int]@);
            assert(b.deep_view()[i as int] == b@[i as int]@);
        }
        i = i + 1;
    }
    proof {
        assert(a.deep_view() =~= b.deep_view());
    }
    true
}

/// Pushing one observation extends the sequence of views by its view.
pub proof fn lemma_obs_views_push<V>(prev: Seq<Observation<V>>, o: Observation<V>)
    ensures
        obs_views(prev.push(o)) =~= obs_views(prev).push(o@),
{
    assert forall|k: int| 0 <= k < prev.len() + 1 implies obs_views(prev.push(o))[k] == obs_views(
        prev,
    ).push(o@)[k] by {
        if k < prev.len() {
            assert(prev.push(o)[k] == prev[k]);
        } else {
            assert(prev.push(o)[k] == o);
        }
    }
}

/// A `u64` count as a signed gauge value, capped at `i64::MAX`.
pub open spec fn saturating_i64(v: u64) -> i64 {
    if v > i64::MAX as u64 {
        i64::MAX
    } else {
        v as i64
    }
}

/// Converts a `u64` count to a signed gauge value, capped at `i64::MAX`.
pub fn to_saturating_i64(v: u64) -> (r: i64)
    ensures
        r == saturating_i64(v),
{
    if v > i64::MAX as u64 {
        i64::MAX
    } else {
        v as i64
    }
}

/// What one synchronization pass did for one resource kind.
#[derive(Clone, Copy, Debug, PartialEq, Eq, Structural)]
pub enum SyncResult {
    /// The fetch succeeded and the kind's families were replaced from the
    /// given number of records.
    Applied(usize),
    /// The fetch failed and the kind's families were left untouched.
    Failed(GetResouceError),
}

} // verus!
