//! The models that Copilot serves, as far as they are known: looked up, kept
//! from an earlier run, or neither.

use crate::json::{
    entry_views, json_views, lemma_array_view, lemma_object_view, Json, JsonView,
};
use crate::text::{copy_texts, texts};
use vstd::prelude::*;

verus! {

/// Where the list of models is from.
#[derive(Clone, Copy, Debug, PartialEq, Eq, Structural)]
pub enum CatalogSource {
    /// There is no list yet.
    Absent,
    Cached,
    Live,
}

/// The list of models that all sessions of a provider share.
#[derive(Debug)]
pub struct ModelCatalog {
    pub fetched_models: Vec<String>,
    pub catalog_source: CatalogSource,
    /// Whether the provider has been set up.
    pub init_done: bool,
}

/// What the list of models holds.
pub struct CatalogView {
    pub fetched_models: Seq<Seq<char>>,
    pub catalog_source: CatalogSource,
    pub init_done: bool,
}

impl View for ModelCatalog {
    type V = CatalogView;

    open spec fn view(&self) -> CatalogView {
        CatalogView {
            fetched_models: texts(self.fetched_models@),
            catalog_source: self.catalog_source,
            init_done: self.init_done,
        }
    }
}

/// The list of models as it is kept from one run to the next.
#[derive(Debug)]
pub struct PersistedCatalog {
    pub models: Vec<String>,
    pub fetched_at_rfc3339: String,
}

impl CatalogView {
    /// The list after the one that was kept is taken: one without models is
    /// not.
    pub open spec fn seeded(self, persisted: Option<PersistedCatalog>) -> CatalogView {
        match persisted {
            Some(catalog) if catalog.models@.len() > 0 => CatalogView {
                fetched_models: texts(catalog.models@),
                catalog_source: CatalogSource::Cached,
                ..self
            },
            _ => self,
        }
    }
}

/// Whether `kept` is what is kept of a list of models.
pub open spec fn keeps(kept: Option<PersistedCatalog>, models: Seq<Seq<char>>) -> bool {
    match kept {
        Some(catalog) => models.len() > 0 && texts(catalog.models@) == models,
        None => models.len() == 0,
    }
}

/// What is said of a list of models.
pub open spec fn source_detail(source: CatalogSource) -> Seq<char> {
    match source {
        CatalogSource::Live => ""@,
        CatalogSource::Cached => "cached live catalog"@,
        CatalogSource::Absent => "catalog still loading"@,
    }
}

/// `chrono::Utc::now` and `DateTime::to_rfc3339`: the present time in words,
/// in the time zone of UTC. Which time it is depends on the clock.
#[verifier::external_body]
fn now_rfc3339() -> (r: String)
    ensures
        "+00:00"@.is_suffix_of(r@),
{
    chrono::Utc::now().to_rfc3339()
}

impl ModelCatalog {
    /// A list without models.
    pub fn new() -> (catalog: Self)
        ensures
            catalog@ == (CatalogView {
                fetched_models: Seq::empty(),
                catalog_source: CatalogSource::Absent,
                init_done: false,
            }),
    {
        let catalog = ModelCatalog {
            fetched_models: Vec::new(),
            catalog_source: CatalogSource::Absent,
            init_done: false,
        };
        assert(catalog@.fetched_models =~= Seq::empty());
        catalog
    }

    /// Takes the list that was kept, where there is one.
    pub fn seed_cached_catalog(&mut self, persisted: Option<PersistedCatalog>)
        ensures
            final(self)@ == old(self)@.seeded(persisted),
    {
        match load_persisted_catalog(persisted) {
            Some(catalog) => {
                self.fetched_models = catalog.models;
                self.catalog_source = CatalogSource::Cached;
            },
            None => {},
        }
    }

    /// What is said of the list.
    pub fn model_catalog_detail(&self) -> (r: &'static str)
        ensures
            r@ == source_detail(self.catalog_source),
    {
        match self.catalog_source {
            CatalogSource::Live => "",
            CatalogSource::Cached => "cached live catalog",
            CatalogSource::Absent => "catalog still loading",
        }
    }

    /// The models that can be chosen: those of the list, or `fallback` where
    /// it has none.
    pub fn available_models_display(&self, fallback: &Vec<String>) -> (models: Vec<String>)
        ensures
            texts(models@) == (if self@.fetched_models.len() > 0 {
                self@.fetched_models
            } else {
                texts(fallback@)
            }),
    {
        assert(self@.fetched_models.len() == self.fetched_models@.len());
        if self.fetched_models.len() > 0 {
            copy_texts(&self.fetched_models)
        } else {
            copy_texts(fallback)
        }
    }

    /// Takes a list that was looked up.
    pub(crate) fn set_live(&mut self, models: Vec<String>)
        ensures
            final(self)@ == (CatalogView {
                fetched_models: texts(models@),
                catalog_source: CatalogSource::Live,
                ..old(self)@
            }),
    {
        self.fetched_models = models;
        self.catalog_source = CatalogSource::Live;
    }

    /// Notes that the provider has been set up.
    pub fn mark_init_done(&mut self)
        ensures
            final(self)@ == (CatalogView { init_done: true, ..old(self)@ }),
    {
        self.init_done = true;
    }
}

/// The list that was kept, where it has any models.
pub fn load_persisted_catalog(read: Option<PersistedCatalog>) -> (r: Option<PersistedCatalog>)
    ensures
        r == (match read {
            Some(catalog) if catalog.models@.len() > 0 => Some(catalog),
            _ => None,
        }),
{
    match read {
        Some(catalog) => if catalog.models.len() > 0 {
            Some(catalog)
        } else {
            None
        },
        None => None,
    }
}

/// What is kept of a list that was looked up at a time: nothing, where it has
/// no models.
pub fn catalog_to_persist(models: &Vec<String>, fetched_at: String) -> (r: Option<
    PersistedCatalog,
>)
    ensures
        keeps(r, texts(models@)),
        r matches Some(catalog) ==> catalog.fetched_at_rfc3339 == fetched_at,
{
    assert(texts(models@).len() == models@.len());
    if models.len() == 0 {
        return None;
    }
    Some(PersistedCatalog { models: copy_texts(models), fetched_at_rfc3339: fetched_at })
}

/// What is kept of a list that was looked up now: nothing, where it has no
/// models.
pub fn persist_catalog(models: &Vec<String>) -> (r: Option<PersistedCatalog>)
    ensures
        keeps(r, texts(models@)),
        r matches Some(catalog) ==> "+00:00"@.is_suffix_of(catalog.fetched_at_rfc3339@),
{
    catalog_to_persist(models, now_rfc3339())
}

/// What was kept of a list is what a later run begins with; where there were
/// no models, it begins with what it had.
pub proof fn law_kept_catalog_is_read_back(
    models: Seq<Seq<char>>,
    kept: Option<PersistedCatalog>,
    before: CatalogView,
)
    requires
        keeps(kept, models),
    ensures
        before.seeded(kept) == (if models.len() > 0 {
            CatalogView {
                fetched_models: models,
                catalog_source: CatalogSource::Cached,
                ..before
            }
        } else {
            before
        }),
{
    match kept {
        Some(catalog) => {
            assert(texts(catalog.models@).len() == catalog.models@.len());
        },
        None => {},
    }
}

/// The texts that JSON values hold, where they are all texts.
pub open spec fn all_texts(items: Seq<JsonView>) -> Option<Seq<Seq<char>>>
    decreases items.len(),
{
    if items.len() == 0 {
        Some(Seq::empty())
    } else {
        match (all_texts(items.drop_last()), items.last().text()) {
            (Some(before), Some(text)) => Some(before.push(text)),
            _ => None,
        }
    }
}

/// What a kept list holds: its models, and when they were looked up.
pub open spec fn catalog_content(catalog: PersistedCatalog) -> (Seq<Seq<char>>, Seq<char>) {
    (texts(catalog.models@), catalog.fetched_at_rfc3339@)
}

/// The kept list that a JSON value holds, where it holds one.
pub open spec fn catalog_in(value: JsonView) -> Option<(Seq<Seq<char>>, Seq<char>)> {
    match (value.items_at("models"@), value.text_at("fetched_at_rfc3339"@)) {
        (Some(items), Some(fetched_at)) => match all_texts(items) {
            Some(models) => Some((models, fetched_at)),
            None => None,
        },
        _ => None,
    }
}

/// A kept list as a JSON value.
pub open spec fn catalog_as_json(models: Seq<Seq<char>>, fetched_at: Seq<char>) -> JsonView {
    JsonView::Object(
        seq![
            (
                "models"@,
                JsonView::Array(models.map_values(|model: Seq<char>| JsonView::Text(model))),
            ),
            ("fetched_at_rfc3339"@, JsonView::Text(fetched_at)),
        ],
    )
}

/// An item that is no text is among the first items, and so among all.
proof fn lemma_not_all_texts(items: Seq<JsonView>, i: int)
    requires
        0 <= i <= items.len(),
        all_texts(items.take(i)) is None,
    ensures
        all_texts(items) is None,
    decreases items.len(),
{
    if i == items.len() {
        assert(items.take(i) =~= items);
    } else {
        assert(items.drop_last().take(i) =~= items.take(i));
        lemma_not_all_texts(items.drop_last(), i);
    }
}

/// The kept list that a JSON value holds, where it holds one.
pub fn read_catalog(value: &Json) -> (r: Option<PersistedCatalog>)
    ensures
        catalog_in(value@) == (match r {
            Some(catalog) => Some(catalog_content(catalog)),
            None => None,
        }),
{
    let items = match value.array_at("models") {
        Some(items) => items,
        None => {
            return None;
        },
    };
    let fetched_at = match value.str_at("fetched_at_rfc3339") {
        Some(text) => text.to_owned(),
        None => {
            return None;
        },
    };
    let ghost views = json_views(items@);
    let mut models: Vec<String> = Vec::new();
    let mut i: usize = 0;
    proof {
        assert(views.take(0) =~= Seq::empty());
        assert(texts(models@) =~= Seq::empty());
    }
    while i < items.len()
        invariant
            i <= items.len(),
            views == json_views(items@),
            value@.items_at("models"@) == Some(views),
            value@.text_at("fetched_at_rfc3339"@) == Some(fetched_at@),
            all_texts(views.take(i as int)) == Some(texts(models@)),
        decreases items.len() - i,
    {
        let ghost before = models@;
        proof {
            assert(views.take(i + 1).drop_last() =~= views.take(i as int));
            assert(views.take(i + 1).last() == items@[i as int]@);
        }
        match items[i].as_str() {
            Some(text) => {
                models.push(text.to_owned());
                assert(texts(models@) =~= texts(before).push(text@));
            },
            None => {
                proof {
                    lemma_not_all_texts(views, i + 1);
                }
                return None;
            },
        }
        i += 1;
    }
    assert(views.take(i as int) =~= views);
    Some(PersistedCatalog { models, fetched_at_rfc3339: fetched_at })
}

/// A kept list as a JSON value.
pub fn write_catalog(catalog: &PersistedCatalog) -> (value: Json)
    ensures
        value@ == catalog_as_json(texts(catalog.models@), catalog.fetched_at_rfc3339@),
{
    let mut items: Vec<Json> = Vec::new();
    let ghost models = texts(catalog.models@);
    let ghost views = models.map_values(|model: Seq<char>| JsonView::Text(model));
    let mut i: usize = 0;
    assert(json_views(items@) =~= views.take(0));
    while i < catalog.models.len()
        invariant
            i <= catalog.models.len(),
            models == texts(catalog.models@),
            views == models.map_values(|model: Seq<char>| JsonView::Text(model)),
            json_views(items@) == views.take(i as int),
        decreases catalog.models.len() - i,
    {
        let ghost before = items@;
        let item = Json::text(catalog.models[i].as_str());
        items.push(item);
        proof {
            assert(json_views(items@) =~= json_views(before).push(item@));
            assert(views[i as int] == item@);
            assert(json_views(items@) =~= views.take(i + 1));
        }
        i += 1;
    }
    assert(views.take(i as int) =~= views);
    let mut entries: Vec<(String, Json)> = Vec::new();
    proof {
        lemma_array_view(items);
    }
    entries.push(("models".to_owned(), Json::Array(items)));
    entries.push((
        "fetched_at_rfc3339".to_owned(),
        Json::text(catalog.fetched_at_rfc3339.as_str()),
    ));
    proof {
        lemma_object_view(entries);
        assert(entry_views(entries@) =~= catalog_as_json(
            models,
            catalog.fetched_at_rfc3339@,
        )->Object_0);
    }
    Json::Object(entries)
}

/// A list of models that is written as JSON is read back as it was.
pub proof fn law_written_catalog_is_read_back(models: Seq<Seq<char>>, fetched_at: Seq<char>)
    ensures
        catalog_in(catalog_as_json(models, fetched_at)) == Some((models, fetched_at)),
{
    reveal_strlit("models");
    reveal_strlit("fetched_at_rfc3339");
    reveal_with_fuel(crate::json::entry_of, 3);
    let value = catalog_as_json(models, fetched_at);
    let entries = value->Object_0;
    assert("models"@.len() != "fetched_at_rfc3339"@.len());
    assert(entries.skip(1)[0] == entries[1]);
    assert(value.field("models"@) == Some(entries[0].1));
    assert(value.field("fetched_at_rfc3339"@) == Some(entries[1].1));
    lemma_texts_are_texts(models);
}

/// Texts as JSON values are all texts.
proof fn lemma_texts_are_texts(models: Seq<Seq<char>>)
    ensures
        all_texts(models.map_values(|model: Seq<char>| JsonView::Text(model))) == Some(models),
    decreases models.len(),
{
    let items = models.map_values(|model: Seq<char>| JsonView::Text(model));
    if models.len() == 0 {
        assert(models =~= Seq::empty());
    } else {
        lemma_texts_are_texts(models.drop_last());
        assert(items.drop_last() =~= models.drop_last().map_values(
            |model: Seq<char>| JsonView::Text(model),
        ));
        assert(models.drop_last().push(models.last()) =~= models);
    }
}

/// The texts in JSON values are those values, where each of them is a text; where
/// one is not, there are none.
pub proof fn law_listed_texts(items: Seq<JsonView>, i: int)
    ensures
        all_texts(items) matches Some(texts) ==> texts.len() == items.len() && (0 <= i < items.len()
            ==> items[i] == JsonView::Text(texts[i])),
        all_texts(items) is None ==> exists|k: int|
            0 <= k < items.len() && !((#[trigger] items[k]) is Text),
    decreases items.len(),
{
    if items.len() > 0 {
        let rest = items.drop_last();
        law_listed_texts(rest, i);
        if all_texts(rest) is None {
            let k = choose|k: int| 0 <= k < rest.len() && !((#[trigger] rest[k]) is Text);
            assert(!(items[k] is Text));
        } else if all_texts(items) is None {
            assert(!(items[items.len() - 1] is Text));
        } else if 0 <= i < items.len() - 1 {
            assert(rest[i] == items[i]);
        }
    }
}

/// A kept list is an object whose `models` are the models, in their order, and
/// whose `fetched_at_rfc3339` is the time; and one is read from exactly these.
pub proof fn law_kept_lists_have_two_entries(
    models: Seq<Seq<char>>,
    fetched_at: Seq<char>,
    value: JsonView,
    i: int,
)
    ensures
        ({
            let kept = catalog_as_json(models, fetched_at);
            &&& kept.text_at("fetched_at_rfc3339"@) == Some(fetched_at)
            &&& kept.items_at("models"@) matches Some(items) && items.len() == models.len() && (0
                <= i < models.len() ==> items[i] == JsonView::Text(models[i]))
        }),
        catalog_in(value) matches Some((found, time)) ==> value.text_at("fetched_at_rfc3339"@)
            == Some(time) && value.items_at("models"@) is Some && (0 <= i
            < value.items_at("models"@)->0.len() ==> value.items_at("models"@)->0[i]
            == JsonView::Text(found[i])),
{
    reveal_strlit("models");
    reveal_strlit("fetched_at_rfc3339");
    reveal_with_fuel(crate::json::entry_of, 3);
    let kept = catalog_as_json(models, fetched_at);
    let entries = kept->Object_0;
    assert("models"@.len() != "fetched_at_rfc3339"@.len());
    assert(entries.skip(1)[0] == entries[1]);
    match value.items_at("models"@) {
        Some(items) => law_listed_texts(items, i),
        None => {},
    }
}

/// Where a list is from is said so: nothing of one that was looked up.
pub proof fn law_lists_say_where_they_are_from(source: CatalogSource)
    ensures
        source == CatalogSource::Live ==> source_detail(source).len() == 0,
        source == CatalogSource::Cached ==> source_detail(source) == "cached live catalog"@,
        source == CatalogSource::Absent ==> source_detail(source) == "catalog still loading"@,
{
    reveal_strlit("");
}

/// A list of models shows all that it holds, as it is; what is kept of one is all
/// of it, and a kept one is taken over as a whole.
pub proof fn law_lists_are_kept_whole(
    catalog: ModelCatalog,
    kept: PersistedCatalog,
    before: CatalogView,
    models: Seq<Seq<char>>,
)
    ensures
        catalog@.fetched_models == texts(catalog.fetched_models@),
        catalog@.catalog_source == catalog.catalog_source,
        catalog@.init_done == catalog.init_done,
        keeps(Some(kept), models) <==> models.len() > 0 && texts(kept.models@) == models,
        keeps(None, models) <==> models.len() == 0,
        kept.models@.len() > 0 ==> before.seeded(Some(kept)) == (CatalogView {
            fetched_models: texts(kept.models@),
            catalog_source: CatalogSource::Cached,
            init_done: before.init_done,
        }),
        kept.models@.len() == 0 ==> before.seeded(Some(kept)) == before,
        before.seeded(None) == before,
        catalog_content(kept) == (texts(kept.models@), kept.fetched_at_rfc3339@),
{
}

} // verus!
