//! Conversion between the store-agnostic description of an index and the
//! form in which the document store holds it.
//!
//! In the native form each field is a key of an ordered document. Its value
//! is `1` or `-1` for a plain or unique index, and the word for the kind
//! (`text`, `2dsphere`, `2d`, `hashed`) for the special kinds.
use crate::database::index::{
    configs_view, fields_view, IndexConfig, IndexConfigView, IndexDirection, IndexField,
    IndexFieldView, IndexOptionMap, IndexType, OptionValue, OptionValueView, SourceIndexes,
};
use crate::database::mongodb::document::{
    document_entries, document_has_key, document_insert, document_items, document_new, has_key,
    keys_view, upsert_key, NativeKeyView, NativeValue, NativeValueView,
};
use crate::text::str_equal;
use vstd::prelude::*;

verus! {

/// The options of an index in its native form, as far as they are
/// converted.
#[derive(Debug, Clone, PartialEq, Eq)]
pub struct IndexOptions {
    pub name: Option<String>,
    pub unique: Option<bool>,
    pub sparse: Option<bool>,
    pub default_language: Option<String>,
    pub language_override: Option<String>,
}

/// What an [`IndexOptions`] holds.
pub struct IndexOptionsView {
    pub name: Option<Seq<char>>,
    pub unique: Option<bool>,
    pub sparse: Option<bool>,
    pub default_language: Option<Seq<char>>,
    pub language_override: Option<Seq<char>>,
}

/// What an optional string holds.
pub open spec fn text_view(text: Option<String>) -> Option<Seq<char>> {
    match text {
        Some(held) => Some(held@),
        None => None,
    }
}

impl View for IndexOptions {
    type V = IndexOptionsView;

    open spec fn view(&self) -> IndexOptionsView {
        IndexOptionsView {
            name: text_view(self.name),
            unique: self.unique,
            sparse: self.sparse,
            default_language: text_view(self.default_language),
            language_override: text_view(self.language_override),
        }
    }
}

impl Default for IndexOptions {
    fn default() -> (options: IndexOptions)
        ensures
            options.name.is_none(),
            options.unique.is_none(),
            options.sparse.is_none(),
            options.default_language.is_none(),
            options.language_override.is_none(),
    {
        IndexOptions {
            name: None,
            unique: None,
            sparse: None,
            default_language: None,
            language_override: None,
        }
    }
}

/// An index in its native form: the keys document and the options.
#[derive(Debug, Clone)]
pub struct IndexModel {
    pub keys: bson::Document,
    pub options: Option<IndexOptions>,
}

/// What an [`IndexModel`] holds.
pub struct IndexModelView {
    pub keys: Seq<NativeKeyView>,
    pub options: Option<IndexOptionsView>,
}

/// What optional native options hold.
pub open spec fn options_view(options: Option<IndexOptions>) -> Option<IndexOptionsView> {
    match options {
        Some(held) => Some(held@),
        None => None,
    }
}

impl View for IndexModel {
    type V = IndexModelView;

    open spec fn view(&self) -> IndexModelView {
        IndexModelView { keys: document_entries(self.keys), options: options_view(self.options) }
    }
}

/// What a list of native indexes holds, one by one.
pub open spec fn models_view(models: Seq<IndexModel>) -> Seq<IndexModelView> {
    Seq::new(models.len(), |i: int| models[i]@)
}

/// The word that the native form puts in place of a direction for an index
/// of a special kind.
pub open spec fn kind_sentinel(kind: IndexType) -> Option<Seq<char>> {
    match kind {
        IndexType::Text => Some("text"@),
        IndexType::Geo2DSphere => Some("2dsphere"@),
        IndexType::Geo2D => Some("2d"@),
        IndexType::Hashed => Some("hashed"@),
        _ => None,
    }
}

/// The native value for a direction: `1` ascending, `-1` descending.
pub open spec fn direction_value(direction: IndexDirection) -> NativeValueView {
    match direction {
        IndexDirection::Ascending => NativeValueView::Int32(1),
        IndexDirection::Descending => NativeValueView::Int32(-1i32),
    }
}

/// The native value of a field of an index of the given kind.
pub open spec fn key_value_spec(kind: IndexType, direction: IndexDirection) -> NativeValueView {
    match kind_sentinel(kind) {
        Some(word) => NativeValueView::Text(word),
        None => direction_value(direction),
    }
}

/// The direction that a native value stands for: `-1` is descending, and
/// everything else, known or not, ascending.
pub open spec fn direction_of_spec(value: NativeValueView) -> IndexDirection {
    match value {
        NativeValueView::Int32(number) => if number == -1 {
            IndexDirection::Descending
        } else {
            IndexDirection::Ascending
        },
        NativeValueView::Int64(number) => if number == -1 {
            IndexDirection::Descending
        } else {
            IndexDirection::Ascending
        },
        _ => IndexDirection::Ascending,
    }
}

/// The keys document that the fields of an index of the given kind make,
/// put in one after the other.
pub open spec fn keys_of_fields(fields: Seq<IndexFieldView>, kind: IndexType) -> Seq<
    NativeKeyView,
>
    decreases fields.len(),
{
    if fields.len() == 0 {
        Seq::empty()
    } else {
        upsert_key(
            keys_of_fields(fields.drop_last(), kind),
            fields.last().name,
            key_value_spec(kind, fields.last().direction),
        )
    }
}

/// The text under `key`, where the options hold a text there.
pub open spec fn text_option(options: Map<Seq<char>, OptionValueView>, key: Seq<char>) -> Option<
    Seq<char>,
> {
    if options.contains_key(key) {
        match options[key] {
            OptionValueView::Text(text) => Some(text),
            _ => None,
        }
    } else {
        None
    }
}

/// The flag under `key`, where the options hold a flag there.
pub open spec fn bool_option(options: Map<Seq<char>, OptionValueView>, key: Seq<char>) -> Option<
    bool,
> {
    if options.contains_key(key) {
        match options[key] {
            OptionValueView::Bool(flag) => Some(flag),
            _ => None,
        }
    } else {
        None
    }
}

/// The native form of an index description.
pub open spec fn config_to_native_spec(config: IndexConfigView) -> IndexModelView {
    let is_text = config.index_type == IndexType::Text;
    IndexModelView {
        keys: keys_of_fields(config.fields, config.index_type),
        options: Some(
            IndexOptionsView {
                name: Some(config.name),
                unique: if config.index_type == IndexType::Unique {
                    Some(true)
                } else {
                    None
                },
                sparse: bool_option(config.options, "sparse"@),
                default_language: if is_text {
                    text_option(config.options, "default_language"@)
                } else {
                    None
                },
                language_override: if is_text {
                    text_option(config.options, "language_override"@)
                } else {
                    None
                },
            },
        ),
    }
}

/// Whether some key of the document has the string `word` as its value.
pub open spec fn has_sentinel(keys: Seq<NativeKeyView>, word: Seq<char>) -> bool {
    exists|i: int| 0 <= i < keys.len() && #[trigger] keys[i].value == NativeValueView::Text(word)
}

/// The kind of a native index. Of the marks that are present the last of
/// these decides: the unique flag, a `text` key, a `2dsphere` key, a `2d`
/// key, a `hashed` key. Without any the index is a standard one.
pub open spec fn detected_kind(keys: Seq<NativeKeyView>, unique: bool) -> IndexType {
    if has_sentinel(keys, "hashed"@) {
        IndexType::Hashed
    } else if has_sentinel(keys, "2d"@) {
        IndexType::Geo2D
    } else if has_sentinel(keys, "2dsphere"@) {
        IndexType::Geo2DSphere
    } else if has_sentinel(keys, "text"@) {
        IndexType::Text
    } else if unique {
        IndexType::Unique
    } else {
        IndexType::Standard
    }
}

/// Whether the native options carry the unique flag, set.
pub open spec fn is_unique(options: Option<IndexOptionsView>) -> bool {
    options.is_some() && options.unwrap().unique == Some(true)
}

/// The name that the native options give the index, or the stand-in
/// `unnamed_index`.
pub open spec fn native_name(options: Option<IndexOptionsView>) -> Seq<char> {
    if options.is_some() && options.unwrap().name.is_some() {
        options.unwrap().name.unwrap()
    } else {
        "unnamed_index"@
    }
}

/// The fields that the keys of a native index stand for, in their order.
pub open spec fn fields_of_keys(keys: Seq<NativeKeyView>) -> Seq<IndexFieldView> {
    Seq::new(
        keys.len(),
        |i: int| IndexFieldView { name: keys[i].name, direction: direction_of_spec(keys[i].value) },
    )
}

/// The free-form options that a native index brings along: the unique flag
/// where it is set, the two language settings of a text index, and the
/// sparse flag.
pub open spec fn options_of_native(options: Option<IndexOptionsView>, is_text: bool) -> Map<
    Seq<char>,
    OptionValueView,
> {
    match options {
        None => Map::empty(),
        Some(held) => {
            let with_unique = if held.unique == Some(true) {
                Map::<Seq<char>, OptionValueView>::empty().insert(
                    "unique"@,
                    OptionValueView::Bool(true),
                )
            } else {
                Map::<Seq<char>, OptionValueView>::empty()
            };
            let with_language = if is_text && held.default_language.is_some() {
                with_unique.insert(
                    "default_language"@,
                    OptionValueView::Text(held.default_language.unwrap()),
                )
            } else {
                with_unique
            };
            let with_override = if is_text && held.language_override.is_some() {
                with_language.insert(
                    "language_override"@,
                    OptionValueView::Text(held.language_override.unwrap()),
                )
            } else {
                with_language
            };
            if held.sparse.is_some() {
                with_override.insert("sparse"@, OptionValueView::Bool(held.sparse.unwrap()))
            } else {
                with_override
            }
        },
    }
}

/// The description of a native index.
pub open spec fn native_to_config_spec(model: IndexModelView) -> IndexConfigView {
    IndexConfigView {
        name: native_name(model.options),
        fields: fields_of_keys(model.keys),
        index_type: detected_kind(model.keys, is_unique(model.options)),
        options: options_of_native(model.options, has_sentinel(model.keys, "text"@)),
    }
}

/// The native value of a field of an index of the given kind.
pub fn key_value(kind: IndexType, direction: IndexDirection) -> (value: NativeValue)
    ensures
        value@ == key_value_spec(kind, direction),
        !(value@ is Other),
{
    match kind {
        IndexType::Text => NativeValue::Text("text".to_owned()),
        IndexType::Geo2DSphere => NativeValue::Text("2dsphere".to_owned()),
        IndexType::Geo2D => NativeValue::Text("2d".to_owned()),
        IndexType::Hashed => NativeValue::Text("hashed".to_owned()),
        _ => match direction {
            IndexDirection::Ascending => NativeValue::Int32(1),
            IndexDirection::Descending => NativeValue::Int32(-1),
        },
    }
}

/// The direction that a native value stands for.
pub fn direction_of(value: &NativeValue) -> (direction: IndexDirection)
    ensures
        direction == direction_of_spec(value@),
{
    match value {
        NativeValue::Int32(number) => if *number == -1 {
            IndexDirection::Descending
        } else {
            IndexDirection::Ascending
        },
        NativeValue::Int64(number) => if *number == -1 {
            IndexDirection::Descending
        } else {
            IndexDirection::Ascending
        },
        _ => IndexDirection::Ascending,
    }
}

/// The text that the options hold under `key`, if they hold a text there.
fn read_text_option(options: &IndexOptionMap, key: &str) -> (text: Option<String>)
    ensures
        text_view(text) == text_option(options@, key@),
{
    match options.get(key) {
        Some(value) => match value.as_str() {
            Some(held) => Some(held.to_owned()),
            None => None,
        },
        None => None,
    }
}

/// The flag that the options hold under `key`, if they hold a flag there.
fn read_bool_option(options: &IndexOptionMap, key: &str) -> (flag: Option<bool>)
    ensures
        flag == bool_option(options@, key@),
{
    match options.get(key) {
        Some(value) => value.as_bool(),
        None => None,
    }
}

/// Whether the value is the string `word`.
fn is_word(value: &NativeValue, word: &str) -> (same: bool)
    ensures
        same == (value@ == NativeValueView::Text(word@)),
{
    match value {
        NativeValue::Text(held) => str_equal(held.as_str(), word),
        _ => false,
    }
}

impl IndexModel {
    /// A native index with the given keys and without options.
    pub fn new(keys: bson::Document) -> (model: IndexModel)
        ensures
            model.keys == keys,
            model.options.is_none(),
    {
        IndexModel { keys, options: None }
    }

    /// Converts a description into the native form, in which the store
    /// takes it to create the index.
    pub fn from_config(config: &IndexConfig) -> (model: IndexModel)
        ensures
            model@ == config_to_native_spec(config@),
    {
        let mut keys = document_new();
        let mut position: usize = 0;
        while position < config.fields.len()
            invariant
                position <= config.fields@.len(),
                document_entries(keys) == keys_of_fields(
                    fields_view(config.fields@).take(position as int),
                    config.index_type,
                ),
            decreases config.fields.len() - position,
        {
            let field = &config.fields[position];
            let value = key_value(config.index_type, field.direction);
            proof {
                let fields = fields_view(config.fields@);
                assert(fields.take(position + 1).drop_last() =~= fields.take(position as int));
                assert(fields.take(position + 1).last() == field@);
            }
            document_insert(&mut keys, field.name.clone(), value);
            position = position + 1;
        }
        assert(fields_view(config.fields@).take(position as int) =~= fields_view(
            config.fields@,
        ));
        let is_text = match config.index_type {
            IndexType::Text => true,
            _ => false,
        };
        let unique = match config.index_type {
            IndexType::Unique => Some(true),
            _ => None,
        };
        let default_language = if is_text {
            read_text_option(&config.options, "default_language")
        } else {
            None
        };
        let language_override = if is_text {
            read_text_option(&config.options, "language_override")
        } else {
            None
        };
        let sparse = read_bool_option(&config.options, "sparse");
        let options = IndexOptions {
            name: Some(config.name.clone()),
            unique,
            sparse,
            default_language,
            language_override,
        };
        IndexModel { keys, options: Some(options) }
    }
}

/// The marks of the special kinds among the keys seen so far.
struct Marks {
    text: bool,
    sphere: bool,
    flat: bool,
    hashed: bool,
}

impl IndexConfig {
    /// Converts a native index, as the store lists it, into its
    /// description.
    pub fn from_model(model: IndexModel) -> (config: IndexConfig)
        ensures
            config@ == native_to_config_spec(model@),
    {
        IndexConfig::of_model(&model)
    }

    /// Converts a native index that stays with the caller.
    pub fn of_model(model: &IndexModel) -> (config: IndexConfig)
        ensures
            config@ == native_to_config_spec(model@),
    {
        let items = document_items(&model.keys);
        let ghost keys = document_entries(model.keys);
        let mut fields: Vec<IndexField> = Vec::new();
        let mut marks = Marks { text: false, sphere: false, flat: false, hashed: false };
        let mut position: usize = 0;
        while position < items.len()
            invariant
                position <= items@.len(),
                keys_view(items@) == keys,
                fields@.len() == position,
                fields_view(fields@) == fields_of_keys(keys.take(position as int)),
                marks.text == has_sentinel(keys.take(position as int), "text"@),
                marks.sphere == has_sentinel(keys.take(position as int), "2dsphere"@),
                marks.flat == has_sentinel(keys.take(position as int), "2d"@),
                marks.hashed == has_sentinel(keys.take(position as int), "hashed"@),
            decreases items.len() - position,
        {
            let item = &items[position];
            let ghost before = keys.take(position as int);
            let ghost after = keys.take(position + 1);
            let ghost old_fields = fields_view(fields@);
            let ghost old_list = fields@;
            proof {
                assert(keys[position as int] == item@);
                assert(after =~= before.push(item@));
                lemma_sentinel_push(before, item@, "text"@);
                lemma_sentinel_push(before, item@, "2dsphere"@);
                lemma_sentinel_push(before, item@, "2d"@);
                lemma_sentinel_push(before, item@, "hashed"@);
            }
            let field = IndexField { name: item.name.clone(), direction: direction_of(&item.value) };
            fields.push(field);
            proof {
                assert forall|i: int| 0 <= i < after.len() implies fields_view(fields@)[i]
                    == fields_of_keys(after)[i] by {
                    if i < position {
                        assert(fields@[i] == old_list[i]);
                        assert(fields_view(fields@)[i] == old_fields[i]);
                        assert(old_fields[i] == fields_of_keys(before)[i]);
                        assert(before[i] == after[i]);
                    } else {
                        assert(fields@[i] == field);
                        assert(after[i] == item@);
                    }
                }
                assert(fields_view(fields@) =~= fields_of_keys(after));
            }
            if is_word(&item.value, "text") {
                marks.text = true;
            }
            if is_word(&item.value, "2dsphere") {
                marks.sphere = true;
            }
            if is_word(&item.value, "2d") {
                marks.flat = true;
            }
            if is_word(&item.value, "hashed") {
                marks.hashed = true;
            }
            position = position + 1;
        }
        assert(keys.take(position as int) =~= keys);
        let mut options = IndexOptionMap::new();
        let mut unique = false;
        let mut name: Option<String> = None;
        match &model.options {
            Some(held) => {
                match held.unique {
                    Some(true) => {
                        unique = true;
                        options.insert("unique".to_owned(), OptionValue::Bool(true));
                    },
                    _ => {},
                }
                if marks.text {
                    match &held.default_language {
                        Some(language) => {
                            options.insert(
                                "default_language".to_owned(),
                                OptionValue::Text(language.clone()),
                            );
                        },
                        None => {},
                    }
                    match &held.language_override {
                        Some(language) => {
                            options.insert(
                                "language_override".to_owned(),
                                OptionValue::Text(language.clone()),
                            );
                        },
                        None => {},
                    }
                }
                match held.sparse {
                    Some(sparse) => {
                        options.insert("sparse".to_owned(), OptionValue::Bool(sparse));
                    },
                    None => {},
                }
                name = match &held.name {
                    Some(given) => Some(given.clone()),
                    None => None,
                };
            },
            None => {},
        }
        let index_type = if marks.hashed {
            IndexType::Hashed
        } else if marks.flat {
            IndexType::Geo2D
        } else if marks.sphere {
            IndexType::Geo2DSphere
        } else if marks.text {
            IndexType::Text
        } else if unique {
            IndexType::Unique
        } else {
            IndexType::Standard
        };
        let name = match name {
            Some(given) => given,
            None => "unnamed_index".to_owned(),
        };
        IndexConfig { name, fields, index_type, options }
    }
}

/// A word is among the values of a document with one more key if it was
/// among them before or is the value of the new key.
pub proof fn lemma_sentinel_push(keys: Seq<NativeKeyView>, key: NativeKeyView, word: Seq<char>)
    ensures
        has_sentinel(keys.push(key), word) == (has_sentinel(keys, word) || key.value
            == NativeValueView::Text(word)),
{
    let longer = keys.push(key);
    if has_sentinel(keys, word) {
        let i = choose|i: int|
            0 <= i < keys.len() && #[trigger] keys[i].value == NativeValueView::Text(word);
        assert(longer[i].value == NativeValueView::Text(word));
    }
    if key.value == NativeValueView::Text(word) {
        assert(longer[keys.len() as int].value == NativeValueView::Text(word));
    }
    if has_sentinel(longer, word) {
        let i = choose|i: int|
            0 <= i < longer.len() && #[trigger] longer[i].value == NativeValueView::Text(word);
        if i < keys.len() {
            assert(keys[i].value == NativeValueView::Text(word));
        }
    }
}

/// Whether the native index is the one on the primary key, which every
/// store creates by itself.
pub open spec fn is_primary_key_index(model: IndexModelView) -> bool {
    has_key(model.keys, "_id"@)
}

/// The descriptions of the native indexes that are transferred: all but the
/// index on the primary key, in their order.
pub open spec fn transferable_configs(models: Seq<IndexModelView>) -> Seq<IndexConfigView>
    decreases models.len(),
{
    if models.len() == 0 {
        Seq::empty()
    } else {
        let before = transferable_configs(models.drop_last());
        if is_primary_key_index(models.last()) {
            before
        } else {
            before.push(native_to_config_spec(models.last()))
        }
    }
}

impl IndexModel {
    /// Whether this is the index on the primary key.
    pub fn is_primary_key(&self) -> (primary: bool)
        ensures
            primary == is_primary_key_index(self@),
    {
        document_has_key(&self.keys, "_id")
    }
}

impl SourceIndexes {
    /// The indexes of an entity, from the native indexes that the store
    /// lists for it. The index on the primary key is left out.
    pub fn from_models(models: Vec<IndexModel>, entity_name: String) -> (source_indexes:
        SourceIndexes)
        ensures
            source_indexes.entity_name@ == entity_name@,
            configs_view(source_indexes.indexes@) == transferable_configs(models_view(models@)),
    {
        let mut indexes: Vec<IndexConfig> = Vec::new();
        let mut position: usize = 0;
        while position < models.len()
            invariant
                position <= models@.len(),
                configs_view(indexes@) == transferable_configs(
                    models_view(models@).take(position as int),
                ),
            decreases models.len() - position,
        {
            let model = &models[position];
            proof {
                let all = models_view(models@);
                assert(all.take(position + 1).drop_last() =~= all.take(position as int));
                assert(all.take(position + 1).last() == model@);
            }
            if !model.is_primary_key() {
                let ghost before = configs_view(indexes@);
                let config = IndexConfig::of_model(model);
                indexes.push(config);
                assert(configs_view(indexes@) =~= before.push(native_to_config_spec(model@)));
            }
            position = position + 1;
        }
        assert(models_view(models@).take(position as int) =~= models_view(models@));
        SourceIndexes { entity_name, indexes }
    }

    /// The native forms of the indexes, in their order, as the destination
    /// takes them.
    pub fn to_models(&self) -> (models: Vec<IndexModel>)
        ensures
            models@.len() == self.indexes@.len(),
            forall|i: int|
                0 <= i < models@.len() ==> (#[trigger] models@[i])@ == config_to_native_spec(
                    self.indexes@[i]@,
                ),
    {
        let mut models: Vec<IndexModel> = Vec::new();
        let mut position: usize = 0;
        while position < self.indexes.len()
            invariant
                position <= self.indexes@.len(),
                models@.len() == position,
                forall|i: int|
                    0 <= i < position ==> (#[trigger] models@[i])@ == config_to_native_spec(
                        self.indexes@[i]@,
                    ),
            decreases self.indexes.len() - position,
        {
            let model = IndexModel::from_config(&self.indexes[position]);
            models.push(model);
            position = position + 1;
        }
        models
    }
}

/// Whether no two fields have the same name.
pub open spec fn names_distinct(fields: Seq<IndexFieldView>) -> bool {
    forall|i: int, j: int| 0 <= i < j < fields.len() ==> fields[i].name != fields[j].name
}

/// The descriptions that the native form can hold: at least one field, no
/// field name twice, a kind that the native form knows, and for the kinds
/// whose fields carry the kind's word in place of a direction only
/// ascending fields.
pub open spec fn transferable(config: IndexConfigView) -> bool {
    &&& config.fields.len() > 0
    &&& names_distinct(config.fields)
    &&& config.index_type != IndexType::Compound
    &&& config.index_type != IndexType::Partial
    &&& (kind_sentinel(config.index_type).is_some() ==> forall|i: int|
        0 <= i < config.fields.len() ==> (#[trigger] config.fields[i]).direction
            == IndexDirection::Ascending)
}

/// The options of a description that the native form carries.
pub open spec fn carried_options(config: IndexConfigView) -> Map<Seq<char>, OptionValueView> {
    options_of_native(
        config_to_native_spec(config).options,
        config.index_type == IndexType::Text,
    )
}

/// The keys of fields with distinct names are the fields, one key each.
pub proof fn lemma_keys_of_distinct_fields(fields: Seq<IndexFieldView>, kind: IndexType)
    requires
        names_distinct(fields),
    ensures
        keys_of_fields(fields, kind).len() == fields.len(),
        forall|i: int|
            0 <= i < fields.len() ==> #[trigger] keys_of_fields(fields, kind)[i] == (NativeKeyView {
                name: fields[i].name,
                value: key_value_spec(kind, fields[i].direction),
            }),
    decreases fields.len(),
{
    if fields.len() > 0 {
        let front = fields.drop_last();
        lemma_keys_of_distinct_fields(front, kind);
        let before = keys_of_fields(front, kind);
        assert(!has_key(before, fields.last().name)) by {
            if has_key(before, fields.last().name) {
                let i = choose|i: int|
                    0 <= i < before.len() && #[trigger] before[i].name == fields.last().name;
                assert(front[i].name == fields[i].name);
            }
        }
    }
}

/// The words of the special kinds differ from one another.
pub proof fn lemma_sentinels_differ()
    ensures
        "text"@ != "2dsphere"@,
        "text"@ != "2d"@,
        "text"@ != "hashed"@,
        "2dsphere"@ != "2d"@,
        "2dsphere"@ != "hashed"@,
        "2d"@ != "hashed"@,
{
    reveal_strlit("text");
    reveal_strlit("2dsphere");
    reveal_strlit("2d");
    reveal_strlit("hashed");
    assert("text"@.len() == 4);
    assert("2dsphere"@.len() == 8);
    assert("2d"@.len() == 2);
    assert("hashed"@.len() == 6);
}

/// The keys of the options that the native form carries differ from one
/// another.
pub proof fn lemma_option_keys_differ()
    ensures
        "unique"@ != "sparse"@,
        "unique"@ != "default_language"@,
        "unique"@ != "language_override"@,
        "sparse"@ != "default_language"@,
        "sparse"@ != "language_override"@,
        "default_language"@ != "language_override"@,
{
    reveal_strlit("unique");
    reveal_strlit("sparse");
    reveal_strlit("default_language");
    reveal_strlit("language_override");
    assert("unique"@.len() == 6);
    assert("sparse"@.len() == 6);
    assert("default_language"@.len() == 16);
    assert("language_override"@.len() == 17);
    assert("unique"@[0] == 'u');
    assert("sparse"@[0] == 's');
}

/// Index round trip: a description that the native form can hold comes back
/// from it with its name, its fields and its kind, and with those of its
/// options that the native form carries. Of the options, all but the unique
/// flag come back as they were given; the unique flag comes back set when
/// the index is a unique one, and not at all otherwise.
pub proof fn lemma_index_round_trip(config: IndexConfigView)
    requires
        transferable(config),
    ensures
        native_to_config_spec(config_to_native_spec(config)).name == config.name,
        native_to_config_spec(config_to_native_spec(config)).fields == config.fields,
        native_to_config_spec(config_to_native_spec(config)).index_type == config.index_type,
        native_to_config_spec(config_to_native_spec(config)).options == carried_options(config),
        forall|key: Seq<char>| #[trigger]
            carried_options(config).contains_key(key) && key != "unique"@
                ==> config.options.contains_key(key) && config.options[key] == carried_options(
                config,
            )[key],
        carried_options(config).contains_key("unique"@) <==> config.index_type
            == IndexType::Unique,
        config.index_type == IndexType::Unique ==> carried_options(config)["unique"@]
            == OptionValueView::Bool(true),
        bool_option(config.options, "sparse"@).is_some() ==> carried_options(
            config,
        ).contains_key("sparse"@),
        config.index_type == IndexType::Text && text_option(
            config.options,
            "default_language"@,
        ).is_some() ==> carried_options(config).contains_key("default_language"@),
        config.index_type == IndexType::Text && text_option(
            config.options,
            "language_override"@,
        ).is_some() ==> carried_options(config).contains_key("language_override"@),
{
    let kind = config.index_type;
    let native = config_to_native_spec(config);
    let keys = native.keys;
    let back = native_to_config_spec(native);
    lemma_keys_of_distinct_fields(config.fields, kind);
    lemma_sentinels_differ();
    lemma_option_keys_differ();
    assert(back.fields =~= config.fields) by {
        assert forall|i: int| 0 <= i < config.fields.len() implies back.fields[i]
            == config.fields[i] by {
            assert(keys[i].name == config.fields[i].name);
            assert(keys[i].value == key_value_spec(kind, config.fields[i].direction));
        }
    }
    match kind_sentinel(kind) {
        Some(word) => {
            assert(keys[0].value == NativeValueView::Text(word));
            assert(has_sentinel(keys, word));
            assert forall|other: Seq<char>| other != word implies !has_sentinel(keys, other) by {
                if has_sentinel(keys, other) {
                    let i = choose|i: int|
                        0 <= i < keys.len() && #[trigger] keys[i].value == NativeValueView::Text(
                            other,
                        );
                    assert(keys[i].value == key_value_spec(kind, config.fields[i].direction));
                }
            }
        },
        None => {
            assert forall|other: Seq<char>| !has_sentinel(keys, other) by {
                if has_sentinel(keys, other) {
                    let i = choose|i: int|
                        0 <= i < keys.len() && #[trigger] keys[i].value == NativeValueView::Text(
                            other,
                        );
                    assert(keys[i].value == key_value_spec(kind, config.fields[i].direction));
                }
            }
        },
    }
    assert(has_sentinel(keys, "text"@) == (kind == IndexType::Text));
    assert(back.index_type == kind);
}

impl From<&IndexConfig> for IndexModel {
    /// Converts a description into the native form.
    fn from(config: &IndexConfig) -> (model: IndexModel)
        ensures
            model@ == config_to_native_spec(config@),
    {
        IndexModel::from_config(config)
    }
}

/// What `from` returns is stated by its own `ensures`, over the views.
impl vstd::std_specs::convert::FromSpecImpl<&IndexConfig> for IndexModel {
    open spec fn obeys_from_spec() -> bool {
        false
    }

    open spec fn from_spec(config: &IndexConfig) -> IndexModel {
        arbitrary()
    }
}

impl From<IndexModel> for IndexConfig {
    /// Converts a native index into its description.
    fn from(model: IndexModel) -> (config: IndexConfig)
        ensures
            config@ == native_to_config_spec(model@),
    {
        IndexConfig::of_model(&model)
    }
}

/// What `from` returns is stated by its own `ensures`, over the views.
impl vstd::std_specs::convert::FromSpecImpl<IndexModel> for IndexConfig {
    open spec fn obeys_from_spec() -> bool {
        false
    }

    open spec fn from_spec(model: IndexModel) -> IndexConfig {
        arbitrary()
    }
}

impl From<SourceIndexes> for Vec<IndexModel> {
    /// The native forms of the indexes of an entity, in their order.
    fn from(source_indexes: SourceIndexes) -> (models: Vec<IndexModel>)
        ensures
            models@.len() == source_indexes.indexes@.len(),
            forall|i: int|
                0 <= i < models@.len() ==> (#[trigger] models@[i])@ == config_to_native_spec(
                    source_indexes.indexes@[i]@,
                ),
    {
        source_indexes.to_models()
    }
}

/// What `from` returns is stated by its own `ensures`, over the views.
impl vstd::std_specs::convert::FromSpecImpl<SourceIndexes> for Vec<IndexModel> {
    open spec fn obeys_from_spec() -> bool {
        false
    }

    open spec fn from_spec(source_indexes: SourceIndexes) -> Vec<IndexModel> {
        arbitrary()
    }
}

impl From<(Vec<IndexModel>, String)> for SourceIndexes {
    /// The indexes of an entity, from the native indexes listed for it and
    /// the entity's name. The index on the primary key is left out.
    fn from(listed: (Vec<IndexModel>, String)) -> (source_indexes: SourceIndexes)
        ensures
            source_indexes.entity_name@ == listed.1@,
            configs_view(source_indexes.indexes@) == transferable_configs(
                models_view(listed.0@),
            ),
    {
        SourceIndexes::from_models(listed.0, listed.1)
    }
}

/// What `from` returns is stated by its own `ensures`, over the views.
impl vstd::std_specs::convert::FromSpecImpl<(Vec<IndexModel>, String)> for SourceIndexes {
    open spec fn obeys_from_spec() -> bool {
        false
    }

    open spec fn from_spec(listed: (Vec<IndexModel>, String)) -> SourceIndexes {
        arbitrary()
    }
}

} // verus!
