//! What a data source hands over for one source entity.

use vstd::prelude::*;
use vstd::string::*;

use crate::client::{views, GeoLocation, Property, PropertyView};

verus! {

/// The latest sample of one feed: the feed's identifier and the text of its
/// value (as a rule a JSON document).
#[derive(Debug, PartialEq, Eq)]
pub struct FeedSample {
    pub feed_id: String,
    pub value: String,
}

impl View for FeedSample {
    type V = (Seq<char>, Seq<char>);

    open spec fn view(&self) -> (Seq<char>, Seq<char>) {
        (self.feed_id@, self.value@)
    }
}

impl Clone for FeedSample {
    fn clone(&self) -> (copy: Self)
        ensures
            copy == *self,
    {
        FeedSample { feed_id: self.feed_id.clone(), value: self.value.clone() }
    }
}

/// The feed identifiers of `samples`, in order.
pub open spec fn feed_ids(samples: Seq<(Seq<char>, Seq<char>)>) -> Seq<Seq<char>> {
    Seq::new(samples.len(), |i: int| samples[i].0)
}

/// `samples` after the feed `feed_id` was given `value`: an earlier sample of
/// that feed is replaced where it stands, a new feed goes to the end.
pub open spec fn with_sample(
    samples: Seq<(Seq<char>, Seq<char>)>,
    feed_id: Seq<char>,
    value: Seq<char>,
) -> Seq<(Seq<char>, Seq<char>)> {
    if feed_ids(samples).contains(feed_id) {
        samples.update(feed_ids(samples).index_of(feed_id), (feed_id, value))
    } else {
        samples.push((feed_id, value))
    }
}

/// The value that `samples` holds for `feed_id`, if any.
pub open spec fn sample_of(samples: Seq<(Seq<char>, Seq<char>)>, feed_id: Seq<char>) -> Option<
    Seq<char>,
> {
    if feed_ids(samples).contains(feed_id) {
        Some(samples[feed_ids(samples).index_of(feed_id)].1)
    } else {
        None
    }
}

/// The samples of one record, at most one for each feed, in the order in
/// which the feeds were first given a sample.
#[derive(Debug, PartialEq, Eq)]
pub struct Feeds {
    samples: Vec<FeedSample>,
}

impl View for Feeds {
    type V = Seq<(Seq<char>, Seq<char>)>;

    closed spec fn view(&self) -> Seq<(Seq<char>, Seq<char>)> {
        views(self.samples@)
    }
}

impl Feeds {
    #[verifier::type_invariant]
    spec fn one_sample_for_each_feed(self) -> bool {
        feed_ids(views(self.samples@)).no_duplicates()
    }

    /// No samples.
    pub fn new() -> (feeds: Feeds)
        ensures
            feeds@ == Seq::<(Seq<char>, Seq<char>)>::empty(),
    {
        let feeds = Feeds { samples: Vec::new() };
        assert(feeds@ =~= Seq::<(Seq<char>, Seq<char>)>::empty());
        feeds
    }

    /// Number of feeds that have a sample.
    pub fn len(&self) -> (n: usize)
        ensures
            n == self@.len(),
            feed_ids(self@).no_duplicates(),
    {
        proof {
            use_type_invariant(self);
        }
        self.samples.len()
    }

    /// Whether no feed has a sample.
    pub fn is_empty(&self) -> (empty: bool)
        ensures
            empty == (self@.len() == 0),
    {
        self.samples.len() == 0
    }

    /// The `i`-th sample.
    pub fn sample(&self, i: usize) -> (sample: &FeedSample)
        requires
            i < self@.len(),
        ensures
            sample@ == self@[i as int],
    {
        &self.samples[i]
    }

    fn position(&self, feed_id: &String) -> (found: Option<usize>)
        ensures
            match found {
                Some(i) => i < self@.len() && feed_ids(self@).contains(feed_id@) && i == feed_ids(
                    self@,
                ).index_of(feed_id@),
                None => !feed_ids(self@).contains(feed_id@),
            },
    {
        proof {
            use_type_invariant(self);
        }
        let mut i: usize = 0;
        while i < self.samples.len()
            invariant
                i <= self.samples.len(),
                feed_ids(self@).no_duplicates(),
                forall|j: int| 0 <= j < i ==> self.samples@[j].feed_id@ != feed_id@,
            decreases self.samples.len() - i,
        {
            if self.samples[i].feed_id == *feed_id {
                proof {
                    let ids = feed_ids(self@);
                    assert(ids[i as int] == feed_id@);
                    let k = ids.index_of(feed_id@);
                    assert(0 <= k < ids.len() && ids[k] == feed_id@);
                    assert(k == i);
                }
                return Some(i);
            }
            i = i + 1;
        }
        proof {
            let ids = feed_ids(self@);
            if ids.contains(feed_id@) {
                let k = choose|k: int| 0 <= k < ids.len() && ids[k] == feed_id@;
                assert(self.samples@[k].feed_id@ == ids[k]);
            }
        }
        None
    }

    /// The value held for `feed_id`, if any.
    pub fn get(&self, feed_id: &str) -> (value: Option<&String>)
        ensures
            match value {
                Some(text) => sample_of(self@, feed_id@) == Some(text@),
                None => sample_of(self@, feed_id@).is_none(),
            },
    {
        let wanted = String::from_str(feed_id);
        match self.position(&wanted) {
            Some(i) => Some(&self.samples[i].value),
            None => None,
        }
    }

    /// Gives the feed `feed_id` the sample `value` and hands back the value
    /// that it replaces, if there was one.
    pub fn insert(&mut self, feed_id: String, value: String) -> (replaced: Option<String>)
        ensures
            final(self)@ == with_sample(old(self)@, feed_id@, value@),
            match replaced {
                Some(text) => sample_of(old(self)@, feed_id@) == Some(text@),
                None => sample_of(old(self)@, feed_id@).is_none(),
            },
    {
        proof {
            use_type_invariant(&*self);
        }
        let ghost before = self@;
        let found = self.position(&feed_id);
        // The samples are worked on outside the struct, which holds no
        // sample meanwhile, and are put back once they are in order.
        let mut samples: Vec<FeedSample> = Vec::new();
        core::mem::swap(&mut self.samples, &mut samples);
        let ghost id = feed_id@;
        let ghost text = value@;
        let replaced = match found {
            Some(i) => {
                let replaced = samples[i].value.clone();
                samples.set(i, FeedSample { feed_id, value });
                proof {
                    assert(views(samples@) =~= before.update(i as int, (id, text)));
                    assert(feed_ids(views(samples@)) =~= feed_ids(before));
                }
                Some(replaced)
            },
            None => {
                samples.push(FeedSample { feed_id, value });
                proof {
                    assert(views(samples@) =~= before.push((id, text)));
                    assert(feed_ids(views(samples@)) =~= feed_ids(before).push(id));
                }
                None
            },
        };
        self.samples = samples;
        replaced
    }
}

impl Clone for Feeds {
    fn clone(&self) -> (copy: Self)
        ensures
            copy@ == self@,
    {
        proof {
            use_type_invariant(self);
        }
        let samples = self.samples.clone();
        proof {
            assert(samples@ =~= self.samples@);
        }
        Feeds { samples }
    }
}

/// The current state of one source entity, as a data source reports it.
#[derive(Debug, PartialEq, Eq)]
pub struct ConnectorData {
    pub id: String,
    pub label: String,
    pub location: Option<GeoLocation>,
    pub feeds: Feeds,
    pub properties: Vec<Property>,
}

/// What a [`ConnectorData`] says.
pub struct ConnectorDataView {
    pub id: Seq<char>,
    pub label: Seq<char>,
    pub location: Option<GeoLocation>,
    pub feeds: Seq<(Seq<char>, Seq<char>)>,
    pub properties: Seq<PropertyView>,
}

impl View for ConnectorData {
    type V = ConnectorDataView;

    open spec fn view(&self) -> ConnectorDataView {
        ConnectorDataView {
            id: self.id@,
            label: self.label@,
            location: self.location,
            feeds: self.feeds@,
            properties: views(self.properties@),
        }
    }
}

impl Clone for ConnectorData {
    fn clone(&self) -> (copy: Self)
        ensures
            copy@ == self@,
    {
        let properties = self.properties.clone();
        proof {
            assert(properties@ =~= self.properties@);
        }
        ConnectorData {
            id: self.id.clone(),
            label: self.label.clone(),
            location: self.location,
            feeds: self.feeds.clone(),
            properties,
        }
    }
}

} // verus!
