//! The template from which a class of twins is made: how their seeds and
//! labels are derived, which feeds they carry, and which properties each of
//! them gets.

use vstd::prelude::*;
use vstd::string::*;

use crate::client::{
    label_property, literal_property, uri_property, views, FeedValue, FeedValueView, FeedView,
    Property, PropertyBuilder, PropertyView, UpsertFeedWithMeta, Visibility, CREATED_AT_PROPERTY,
    DATE_TIME, LABEL, MODEL_PROPERTY, UPDATED_AT_PROPERTY,
};
use crate::constants::{HEARTBEAT_FEED_ID, LANGUAGE, MAX_LABEL_LENGTH};
use crate::text::{chars_of, trim_bounds, trimmed};

verus! {

/// `prefix`, a space, and the word `Model`: the seed or the label of the
/// model twin itself.
pub open spec fn model_name(prefix: Seq<char>) -> Seq<char> {
    prefix + " Model"@
}

/// `prefix`, a space, and `rest`.
pub open spec fn prefixed(prefix: Seq<char>, rest: Seq<char>) -> Seq<char> {
    prefix + " "@ + rest
}

/// Index of the last space of `s` at or before index `n`; 0 when there is
/// none.
pub open spec fn last_space_up_to(s: Seq<char>, n: int) -> int
    decreases n,
{
    if n <= 0 {
        0
    } else if n < s.len() && s[n] == ' ' {
        n
    } else {
        last_space_up_to(s, n - 1)
    }
}

/// `s` without its last word and the space before it; nothing when `s` has
/// no space.
pub open spec fn drop_last_word(s: Seq<char>) -> Seq<char> {
    s.take(last_space_up_to(s, s.len() - 1))
}

/// `s` cut down to the length of a label: `s` itself when it is short
/// enough, else what stands before the last space that leaves at most
/// [`MAX_LABEL_LENGTH`] characters, and nothing when no space does.
pub open spec fn fit_label(s: Seq<char>) -> Seq<char> {
    if s.len() <= MAX_LABEL_LENGTH {
        s
    } else {
        s.take(last_space_up_to(s, MAX_LABEL_LENGTH as int))
    }
}

/// The label of the twin whose source label is `label`.
pub open spec fn twin_label_text(label_prefix: Seq<char>, label: Seq<char>) -> Seq<char> {
    fit_label(trimmed(prefixed(label_prefix, label)))
}

/// What `last_space_up_to` finds: a space, unless it is 0, and no space
/// after it up to `n`.
pub proof fn lemma_last_space_up_to(s: Seq<char>, n: int)
    ensures
        0 <= last_space_up_to(s, n),
        n >= 0 ==> last_space_up_to(s, n) <= n,
        last_space_up_to(s, n) > 0 ==> last_space_up_to(s, n) < s.len() && s[last_space_up_to(
            s,
            n,
        )] == ' ',
        forall|i: int|
            last_space_up_to(s, n) < i <= n && i < s.len() ==> #[trigger] s[i] != ' ',
    decreases n,
{
    if n > 0 && !(n < s.len() && s[n] == ' ') {
        lemma_last_space_up_to(s, n - 1);
    }
}

/// The search gives the same index from every start between that index and
/// the end of a stretch without spaces.
proof fn lemma_last_space_from_earlier(s: Seq<char>, m: int, n: int)
    requires
        last_space_up_to(s, n) <= m <= n,
    ensures
        last_space_up_to(s, m) == last_space_up_to(s, n),
    decreases n - m,
{
    if m < n {
        lemma_last_space_up_to(s, n);
        if n > 0 && !(n < s.len() && s[n] == ' ') {
            lemma_last_space_from_earlier(s, m, n - 1);
        }
    }
}

/// The search does not look past `n`.
proof fn lemma_last_space_of_prefix(s: Seq<char>, len: int, n: int)
    requires
        n < len <= s.len(),
    ensures
        last_space_up_to(s.take(len), n) == last_space_up_to(s, n),
    decreases n,
{
    if n > 0 {
        lemma_last_space_of_prefix(s, len, n - 1);
    }
}

/// A fitted label is short enough, and a text that is short enough is its
/// own fitted label.
pub proof fn lemma_fit_label_fits(s: Seq<char>)
    ensures
        fit_label(s).len() <= MAX_LABEL_LENGTH,
        s.len() <= MAX_LABEL_LENGTH ==> fit_label(s) == s,
        fit_label(s).is_prefix_of(s),
{
    lemma_last_space_up_to(s, MAX_LABEL_LENGTH as int);
}

/// Fitting a label twice gives what fitting it once gives.
pub proof fn lemma_fit_label_idempotent(s: Seq<char>)
    ensures
        fit_label(fit_label(s)) == fit_label(s),
{
    lemma_fit_label_fits(s);
}

/// Fitting a label comes to dropping its last word for as long as it is too
/// long.
pub proof fn lemma_fit_label_drops_words(s: Seq<char>)
    ensures
        fit_label(s) == if s.len() <= MAX_LABEL_LENGTH {
            s
        } else {
            fit_label(drop_last_word(s))
        },
{
    if s.len() > MAX_LABEL_LENGTH {
        let max = MAX_LABEL_LENGTH as int;
        let cut = last_space_up_to(s, s.len() - 1);
        let shorter = drop_last_word(s);
        lemma_last_space_up_to(s, s.len() - 1);
        if cut <= max {
            lemma_last_space_from_earlier(s, max, s.len() - 1);
        } else {
            lemma_last_space_of_prefix(s, cut, max);
            lemma_last_space_up_to(s, max);
            assert(shorter.take(last_space_up_to(s, max)) =~= s.take(last_space_up_to(s, max)));
        }
    }
}

/// Where a label comes back unchanged when the prefix is put before it once
/// more and the whole is trimmed, making the label of that label changes
/// nothing.
pub proof fn lemma_twin_label_settles(label_prefix: Seq<char>, label: Seq<char>)
    requires
        trimmed(prefixed(label_prefix, twin_label_text(label_prefix, label))) == twin_label_text(
            label_prefix,
            label,
        ),
    ensures
        twin_label_text(label_prefix, twin_label_text(label_prefix, label)) == twin_label_text(
            label_prefix,
            label,
        ),
{
    lemma_fit_label_fits(trimmed(prefixed(label_prefix, label)));
}

/// The label of a twin is never longer than a label may be, and where the
/// prefixed and trimmed source label is short enough, it is the label.
pub proof fn lemma_twin_label_fits(label_prefix: Seq<char>, label: Seq<char>)
    ensures
        twin_label_text(label_prefix, label).len() <= MAX_LABEL_LENGTH,
        trimmed(prefixed(label_prefix, label)).len() <= MAX_LABEL_LENGTH ==> twin_label_text(
            label_prefix,
            label,
        ) == trimmed(prefixed(label_prefix, label)),
{
    lemma_fit_label_fits(trimmed(prefixed(label_prefix, label)));
}

/// Two source identifiers that give one seed are one identifier.
pub proof fn lemma_twin_seed_injective(seed_prefix: Seq<char>, a: Seq<char>, b: Seq<char>)
    requires
        prefixed(seed_prefix, a) == prefixed(seed_prefix, b),
    ensures
        a == b,
{
    let head = seed_prefix + " "@;
    assert(a =~= prefixed(seed_prefix, a).skip(head.len() as int));
    assert(b =~= prefixed(seed_prefix, b).skip(head.len() as int));
}

/// The feed on which a model twin reports each tick: when it last shared,
/// and for how many twins.
pub open spec fn heartbeat_feed() -> FeedView {
    FeedView {
        id: HEARTBEAT_FEED_ID@,
        store_last: true,
        values: seq![
            FeedValueView {
                label: "timestamp"@,
                comment: "Time of the last share"@,
                unit: Seq::empty(),
                data_type: DATE_TIME@,
            },
            FeedValueView {
                label: "shares"@,
                comment: "Number of twins for which data was shared"@,
                unit: "http://qudt.org/vocab/unit/NUM"@,
                data_type: "integer"@,
            },
        ],
        properties: seq![label_property(LANGUAGE@, "Heartbeat"@)],
    }
}

/// What becomes of one property of the template in a twin: the label, the
/// link to the model and the two timestamps are written anew, every other
/// property is taken as it stands.
pub open spec fn twin_property(
    template: PropertyView,
    model_did: Seq<char>,
    twin_label: Seq<char>,
    timestamp: Seq<char>,
) -> PropertyView {
    if template.key == LABEL@ {
        label_property(LANGUAGE@, twin_label)
    } else if template.key == MODEL_PROPERTY@ {
        uri_property(MODEL_PROPERTY@, model_did)
    } else if template.key == CREATED_AT_PROPERTY@ {
        literal_property(CREATED_AT_PROPERTY@, DATE_TIME@, timestamp)
    } else if template.key == UPDATED_AT_PROPERTY@ {
        literal_property(UPDATED_AT_PROPERTY@, DATE_TIME@, timestamp)
    } else {
        template
    }
}

/// The properties of a twin: those of the template, each as
/// [`twin_property`] has it.
pub open spec fn twin_properties(
    template: Seq<PropertyView>,
    model_did: Seq<char>,
    twin_label: Seq<char>,
    timestamp: Seq<char>,
) -> Seq<PropertyView> {
    Seq::new(template.len(), |i: int| twin_property(template[i], model_did, twin_label, timestamp))
}

/// The properties of a twin are as many as those of the template and stand
/// under the same keys; those under the label, the link to the model and the
/// two timestamps are written anew, and every other is the template's own.
pub proof fn lemma_twin_properties_rewrite_four_keys(
    template: Seq<PropertyView>,
    model_did: Seq<char>,
    twin_label: Seq<char>,
    timestamp: Seq<char>,
    i: int,
)
    requires
        0 <= i < template.len(),
    ensures
        twin_properties(template, model_did, twin_label, timestamp).len() == template.len(),
        twin_properties(template, model_did, twin_label, timestamp)[i].key == template[i].key,
        template[i].key == LABEL@ ==> twin_properties(
            template,
            model_did,
            twin_label,
            timestamp,
        )[i] == label_property(LANGUAGE@, twin_label),
        template[i].key != LABEL@ && template[i].key == MODEL_PROPERTY@ ==> twin_properties(
            template,
            model_did,
            twin_label,
            timestamp,
        )[i] == uri_property(MODEL_PROPERTY@, model_did),
        template[i].key != LABEL@ && template[i].key != MODEL_PROPERTY@ && (template[i].key
            == CREATED_AT_PROPERTY@ || template[i].key == UPDATED_AT_PROPERTY@) ==> twin_properties(
            template,
            model_did,
            twin_label,
            timestamp,
        )[i] == literal_property(template[i].key, DATE_TIME@, timestamp),
        template[i].key != LABEL@ && template[i].key != MODEL_PROPERTY@ && template[i].key
            != CREATED_AT_PROPERTY@ && template[i].key != UPDATED_AT_PROPERTY@ ==> twin_properties(
            template,
            model_did,
            twin_label,
            timestamp,
        )[i] == template[i],
{
}

/// The template of a class of twins. It does not change once made.
#[derive(Debug, PartialEq, Eq)]
pub struct Model {
    seed_prefix: String,
    label_prefix: String,
    visibility: Visibility,
    model_properties: Vec<Property>,
    feeds: Vec<UpsertFeedWithMeta>,
    twin_properties: Vec<Property>,
}

/// What a [`Model`] says.
pub struct ModelView {
    pub seed_prefix: Seq<char>,
    pub label_prefix: Seq<char>,
    pub visibility: Visibility,
    pub model_properties: Seq<PropertyView>,
    pub feeds: Seq<FeedView>,
    pub twin_properties: Seq<PropertyView>,
}

impl ModelView {
    /// The feeds of a twin of this model; the model twin itself carries the
    /// heartbeat feed after them.
    pub open spec fn feeds_with(self, add_heartbeat: bool) -> Seq<FeedView> {
        if add_heartbeat {
            self.feeds.push(heartbeat_feed())
        } else {
            self.feeds
        }
    }
}

impl View for Model {
    type V = ModelView;

    closed spec fn view(&self) -> ModelView {
        ModelView {
            seed_prefix: self.seed_prefix@,
            label_prefix: self.label_prefix@,
            visibility: self.visibility,
            model_properties: views(self.model_properties@),
            feeds: views(self.feeds@),
            twin_properties: views(self.twin_properties@),
        }
    }
}

impl Clone for Model {
    fn clone(&self) -> (copy: Self)
        ensures
            copy@ == self@,
    {
        let model_properties = self.model_properties.clone();
        let feeds = self.feeds.clone();
        let twin_properties = self.twin_properties.clone();
        proof {
            assert(model_properties@ =~= self.model_properties@);
            assert(twin_properties@ =~= self.twin_properties@);
            assert(views(feeds@) =~= views(self.feeds@));
        }
        Model {
            seed_prefix: self.seed_prefix.clone(),
            label_prefix: self.label_prefix.clone(),
            visibility: self.visibility,
            model_properties,
            feeds,
            twin_properties,
        }
    }
}

fn heartbeat_feed_definition() -> (feed: UpsertFeedWithMeta)
    ensures
        feed@ == heartbeat_feed(),
{
    let mut values: Vec<FeedValue> = Vec::new();
    values.push(
        FeedValue {
            label: String::from_str("timestamp"),
            comment: String::from_str("Time of the last share"),
            unit: String::new(),
            data_type: String::from_str(DATE_TIME),
        },
    );
    values.push(
        FeedValue {
            label: String::from_str("shares"),
            comment: String::from_str("Number of twins for which data was shared"),
            unit: String::from_str("http://qudt.org/vocab/unit/NUM"),
            data_type: String::from_str("integer"),
        },
    );
    let mut properties: Vec<Property> = Vec::new();
    properties.push(PropertyBuilder::build_label(LANGUAGE, "Heartbeat"));
    let feed = UpsertFeedWithMeta {
        id: String::from_str(HEARTBEAT_FEED_ID),
        store_last: true,
        values,
        properties,
    };
    proof {
        assert(feed@.values =~= heartbeat_feed().values);
        assert(feed@.properties =~= heartbeat_feed().properties);
    }
    feed
}

impl Model {
    pub fn new(
        seed_prefix: String,
        label_prefix: String,
        visibility: Visibility,
        model_properties: Vec<Property>,
        feeds: Vec<UpsertFeedWithMeta>,
        twin_properties: Vec<Property>,
    ) -> (model: Model)
        ensures
            model@ == (ModelView {
                seed_prefix: seed_prefix@,
                label_prefix: label_prefix@,
                visibility,
                model_properties: views(model_properties@),
                feeds: views(feeds@),
                twin_properties: views(twin_properties@),
            }),
    {
        Model { seed_prefix, label_prefix, visibility, model_properties, feeds, twin_properties }
    }

    /// The seed of the model twin.
    pub fn get_seed(&self) -> (seed: String)
        ensures
            seed@ == model_name(self@.seed_prefix),
    {
        self.seed_prefix.clone().concat(" Model")
    }

    /// The label of the model twin.
    pub fn get_label(&self) -> (label: String)
        ensures
            label@ == model_name(self@.label_prefix),
    {
        self.label_prefix.clone().concat(" Model")
    }

    pub fn get_visibility(&self) -> (visibility: Visibility)
        ensures
            visibility == self@.visibility,
    {
        self.visibility
    }

    /// The seed of the twin of the source entity `twin_id`.
    pub fn get_twin_seed(&self, twin_id: &str) -> (seed: String)
        ensures
            seed@ == prefixed(self@.seed_prefix, twin_id@),
    {
        self.seed_prefix.clone().concat(" ").concat(twin_id)
    }

    /// The label of the twin whose source label is `label`: the prefixed
    /// label without the whitespace around it, cut at a space where it is
    /// longer than a label may be.
    pub fn get_twin_label(&self, label: &str) -> (twin_label: String)
        ensures
            twin_label@ == twin_label_text(self@.label_prefix, label@),
            twin_label@.len() <= MAX_LABEL_LENGTH,
            trimmed(prefixed(self@.label_prefix, label@)).len() <= MAX_LABEL_LENGTH
                ==> twin_label@ == trimmed(prefixed(self@.label_prefix, label@)),
    {
        let full = self.label_prefix.clone().concat(" ").concat(label);
        let chars = chars_of(full.as_str());
        let (from, to) = trim_bounds(&chars);
        let ghost kept = trimmed(chars@);
        let mut end: usize = to;
        if to - from > MAX_LABEL_LENGTH {
            let mut k: usize = MAX_LABEL_LENGTH;
            while k > 0 && chars[from + k] != ' '
                invariant
                    from + MAX_LABEL_LENGTH < to <= chars.len(),
                    k <= MAX_LABEL_LENGTH,
                    kept == chars@.subrange(from as int, to as int),
                    last_space_up_to(kept, k as int) == last_space_up_to(
                        kept,
                        MAX_LABEL_LENGTH as int,
                    ),
                decreases k,
            {
                assert(kept[k as int] == chars@[from + k]);
                k = k - 1;
            }
            proof {
                if k > 0 {
                    assert(kept[k as int] == chars@[from + k]);
                }
                assert(kept.take(k as int) =~= chars@.subrange(from as int, from + k));
            }
            end = from + k;
        }
        proof {
            lemma_fit_label_fits(kept);
        }
        String::from_str(full.as_str().substring_char(from, end))
    }

    /// The feeds of a twin of this model. Only the model twin itself gets
    /// the heartbeat feed, which then comes last.
    pub fn get_feeds(&self, add_heartbeat: bool) -> (feeds: Vec<UpsertFeedWithMeta>)
        ensures
            views(feeds@) == self@.feeds_with(add_heartbeat),
    {
        let mut feeds = self.feeds.clone();
        proof {
            assert(views(feeds@) =~= views(self.feeds@));
        }
        if add_heartbeat {
            let ghost before = views(feeds@);
            feeds.push(heartbeat_feed_definition());
            proof {
                assert(views(feeds@) =~= before.push(heartbeat_feed()));
            }
        }
        feeds
    }

    pub fn get_model_properties(&self) -> (properties: &Vec<Property>)
        ensures
            views(properties@) == self@.model_properties,
    {
        &self.model_properties
    }

    /// The properties of the twin labelled `twin_label` of the model
    /// `model_did`, made at the time that `timestamp` gives: the label, the
    /// link to the model, the time of creation and the time of the last
    /// update are written anew, every other property of the template is
    /// taken as it stands.
    pub fn build_twin_properties(&self, model_did: &str, twin_label: &str, timestamp: &str) -> (
        properties: Vec<Property>
    )
        ensures
            views(properties@) == twin_properties(
                self@.twin_properties,
                model_did@,
                twin_label@,
                timestamp@,
            ),
    {
        let label_key = String::from_str(LABEL);
        let model_key = String::from_str(MODEL_PROPERTY);
        let created_key = String::from_str(CREATED_AT_PROPERTY);
        let updated_key = String::from_str(UPDATED_AT_PROPERTY);
        let ghost wanted = twin_properties(
            self@.twin_properties,
            model_did@,
            twin_label@,
            timestamp@,
        );
        let mut properties: Vec<Property> = Vec::new();
        let mut i: usize = 0;
        while i < self.twin_properties.len()
            invariant
                i <= self.twin_properties.len(),
                properties.len() == i,
                label_key@ == LABEL@,
                model_key@ == MODEL_PROPERTY@,
                created_key@ == CREATED_AT_PROPERTY@,
                updated_key@ == UPDATED_AT_PROPERTY@,
                wanted == twin_properties(
                    self@.twin_properties,
                    model_did@,
                    twin_label@,
                    timestamp@,
                ),
                forall|j: int| 0 <= j < i ==> properties@[j]@ == wanted[j],
            decreases self.twin_properties.len() - i,
        {
            let template = &self.twin_properties[i];
            assert(self@.twin_properties[i as int] == template@);
            let property = if template.key == label_key {
                PropertyBuilder::build_label(LANGUAGE, twin_label)
            } else if template.key == model_key {
                PropertyBuilder::build_uri_value(MODEL_PROPERTY, model_did)
            } else if template.key == created_key {
                PropertyBuilder::build_literal_value(CREATED_AT_PROPERTY, DATE_TIME, timestamp)
            } else if template.key == updated_key {
                PropertyBuilder::build_literal_value(UPDATED_AT_PROPERTY, DATE_TIME, timestamp)
            } else {
                template.clone()
            };
            properties.push(property);
            i = i + 1;
        }
        proof {
            assert(views(properties@) =~= wanted);
        }
        properties
    }
}

} // verus!
