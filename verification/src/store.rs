//! The in-memory placeholder store: a table of records keyed by the
//! pair (url, cache key), with at most one record per pair, tracking
//! for each record whether the persistent table already holds it.

use vstd::prelude::*;

use crate::placeholder_image::{kind_token, spec_kind_from, PlaceholderImageOutputKind};
use crate::text::{dec_str_of, str_eq, u32_to_string};
use crate::transform::PreviewOptions;

verus! {

/// How a record relates to the persistent table: already persisted
/// unchanged, to be inserted, or to be rewritten in place.
#[derive(Debug, Clone, Copy, PartialEq, Eq, Structural)]
pub enum WriteState {
    Clean,
    Insert,
    Update,
}

/// One placeholder record.
pub struct StoreDataItem {
    /// Persistent primary key; absent until the record was first flushed.
    pub id: Option<i64>,
    pub url: String,
    pub placeholder: String,
    /// Records requested with caching off are delivered but never flushed.
    pub cache: bool,
    pub preview_type: PlaceholderImageOutputKind,
    pub cache_key: String,
    pub original_width: u32,
    pub original_height: u32,
    pub write_state: WriteState,
}

/// A row of the persistent table, as read back by the shell.
pub struct ImageRow {
    pub id: i64,
    pub url: String,
    pub placeholder: String,
    pub preview_type: String,
    pub cache_key: String,
    pub original_width: u32,
    pub original_height: u32,
}

/// A row to insert into the persistent table.
pub struct InsertRow {
    pub url: String,
    pub placeholder: String,
    pub preview_type: String,
    pub cache_key: String,
    pub original_width: u32,
    pub original_height: u32,
}

/// A row to rewrite in the persistent table, addressed by its key.
pub struct UpdateRow {
    pub id: i64,
    pub url: String,
    pub placeholder: String,
    pub preview_type: String,
    pub cache_key: String,
    pub original_width: u32,
    pub original_height: u32,
}

/// Failure of a store lookup.
#[derive(Debug)]
pub enum StoreError {
    NotFound,
}

impl StoreError {
    /// Human-readable description of the failure.
    pub fn message(&self) -> (r: String)
        ensures
            r@ == "Placeholder not found for the given URL"@,
    {
        "Placeholder not found for the given URL".to_owned()
    }
}

/// The in-memory table of placeholder records.
pub struct Store {
    pub items: Vec<StoreDataItem>,
}

/// The record carries the given url and cache key.
pub open spec fn key_matches(item: StoreDataItem, url: Seq<char>, key: Seq<char>) -> bool {
    item.url@ == url && item.cache_key@ == key
}

/// The record is not yet mirrored by the persistent table.
pub open spec fn spec_is_dirty(item: StoreDataItem) -> bool {
    item.write_state != WriteState::Clean
}

/// The record belongs in the flush's insert list.
pub open spec fn spec_needs_insert(item: StoreDataItem) -> bool {
    item.cache && item.write_state == WriteState::Insert
}

/// The record belongs in the flush's update list.
pub open spec fn spec_needs_update(item: StoreDataItem) -> bool {
    item.cache && item.write_state == WriteState::Update
}

/// Unset dimensions count as zero inside a cache key.
pub open spec fn spec_dim_or_zero(d: Option<u32>) -> int {
    match d {
        Some(v) => v as int,
        None => 0,
    }
}

/// The canonical equivalence token for "same rendering of the same
/// URL": output kind token and the two requested dimensions, zero when
/// unset. Delivery switches (`cache`, `wrap_with_svg`,
/// `replace_function_call`) deliberately do not take part.
pub open spec fn spec_cache_key(options: PreviewOptions) -> Seq<char> {
    kind_token(options.output_kind) + "_"@ + dec_str_of(spec_dim_or_zero(options.width)) + "_"@
        + dec_str_of(spec_dim_or_zero(options.height))
}

/// The record holds the given data: the prior persistent key, the call
/// site's url, the freshly built placeholder, the options' delivery
/// fields, the source dimensions, and the given write state.
pub open spec fn spec_upserted(
    rec: StoreDataItem,
    prior_id: Option<i64>,
    url: Seq<char>,
    placeholder: Seq<char>,
    original_width: u32,
    original_height: u32,
    options: PreviewOptions,
    state: WriteState,
) -> bool {
    &&& rec.id == prior_id
    &&& rec.url@ == url
    &&& rec.placeholder@ == placeholder
    &&& rec.cache == options.cache
    &&& rec.preview_type == options.output_kind
    &&& rec.cache_key@ == spec_cache_key(options)
    &&& rec.original_width == original_width
    &&& rec.original_height == original_height
    &&& rec.write_state == state
}

/// The outgoing insert row mirrors the record, with the kind rendered
/// as its canonical token.
pub open spec fn spec_insert_row_matches(row: InsertRow, item: StoreDataItem) -> bool {
    &&& row.url@ == item.url@
    &&& row.placeholder@ == item.placeholder@
    &&& row.preview_type@ == kind_token(item.preview_type)
    &&& row.cache_key@ == item.cache_key@
    &&& row.original_width == item.original_width
    &&& row.original_height == item.original_height
}

/// A record that was never flushed has no persistent key; it is
/// addressed as zero, which no autoincremented key takes.
pub open spec fn spec_id_or_zero(id: Option<i64>) -> i64 {
    match id {
        Some(v) => v,
        None => 0,
    }
}

/// The outgoing update row mirrors the record and addresses it by its
/// persistent key.
pub open spec fn spec_update_row_matches(row: UpdateRow, item: StoreDataItem) -> bool {
    &&& row.id == spec_id_or_zero(item.id)
    &&& row.url@ == item.url@
    &&& row.placeholder@ == item.placeholder@
    &&& row.preview_type@ == kind_token(item.preview_type)
    &&& row.cache_key@ == item.cache_key@
    &&& row.original_width == item.original_width
    &&& row.original_height == item.original_height
}

/// The records a flush will insert, in store order.
pub open spec fn spec_insert_list(items: Seq<StoreDataItem>) -> Seq<StoreDataItem> {
    items.filter(|it: StoreDataItem| spec_needs_insert(it))
}

/// The records a flush will rewrite, in store order.
pub open spec fn spec_update_list(items: Seq<StoreDataItem>) -> Seq<StoreDataItem> {
    items.filter(|it: StoreDataItem| spec_needs_update(it))
}

/// Taking one more record either appends it to the insert list (when
/// it needs inserting) or leaves the list unchanged.
proof fn lemma_insert_list_step(s: Seq<StoreDataItem>, i: int)
    requires
        0 <= i < s.len(),
    ensures
        spec_needs_insert(s[i]) ==> spec_insert_list(s.take(i + 1)) == spec_insert_list(
            s.take(i),
        ).push(s[i]),
        !spec_needs_insert(s[i]) ==> spec_insert_list(s.take(i + 1)) == spec_insert_list(s.take(i)),
{
    reveal(Seq::filter);
    assert(s.take(i + 1).drop_last() =~= s.take(i));
    assert(s.take(i + 1).last() == s[i]);
    assert(s.take(i + 1).len() == i + 1);
}

/// Taking one more record either appends it to the update list (when
/// it needs rewriting) or leaves the list unchanged.
proof fn lemma_update_list_step(s: Seq<StoreDataItem>, i: int)
    requires
        0 <= i < s.len(),
    ensures
        spec_needs_update(s[i]) ==> spec_update_list(s.take(i + 1)) == spec_update_list(
            s.take(i),
        ).push(s[i]),
        !spec_needs_update(s[i]) ==> spec_update_list(s.take(i + 1)) == spec_update_list(s.take(i)),
{
    reveal(Seq::filter);
    assert(s.take(i + 1).drop_last() =~= s.take(i));
    assert(s.take(i + 1).last() == s[i]);
    assert(s.take(i + 1).len() == i + 1);
}

/// A sequence of records none of which needs inserting filters to an
/// empty insert list.
proof fn lemma_insert_list_vacuous(items: Seq<StoreDataItem>)
    requires
        forall|i: int| 0 <= i < items.len() ==> !spec_needs_insert(#[trigger] items[i]),
    ensures
        spec_insert_list(items) == Seq::<StoreDataItem>::empty(),
    decreases items.len(),
{
    reveal(Seq::filter);
    if items.len() > 0 {
        assert(forall|i: int|
            0 <= i < items.drop_last().len() ==> !spec_needs_insert(
                #[trigger] items.drop_last()[i],
            ));
        lemma_insert_list_vacuous(items.drop_last());
    }
    assert(spec_insert_list(items) =~= Seq::<StoreDataItem>::empty());
}

/// A sequence of records none of which needs rewriting filters to an
/// empty update list.
proof fn lemma_update_list_vacuous(items: Seq<StoreDataItem>)
    requires
        forall|i: int| 0 <= i < items.len() ==> !spec_needs_update(#[trigger] items[i]),
    ensures
        spec_update_list(items) == Seq::<StoreDataItem>::empty(),
    decreases items.len(),
{
    reveal(Seq::filter);
    if items.len() > 0 {
        assert(forall|i: int|
            0 <= i < items.drop_last().len() ==> !spec_needs_update(
                #[trigger] items.drop_last()[i],
            ));
        lemma_update_list_vacuous(items.drop_last());
    }
    assert(spec_update_list(items) =~= Seq::<StoreDataItem>::empty());
}

/// Round trip: a store holding only clean records — exactly what
/// loading the persistent table produces — is not dirty, and a flush
/// right after loading would insert and rewrite nothing.
pub proof fn lemma_clean_store_flushes_nothing(store: Store)
    requires
        forall|i: int|
            0 <= i < store.items@.len() ==> #[trigger] store.items@[i].write_state
                == WriteState::Clean,
    ensures
        !store.spec_dirty(),
        spec_insert_list(store.items@) == Seq::<StoreDataItem>::empty(),
        spec_update_list(store.items@) == Seq::<StoreDataItem>::empty(),
{
    lemma_insert_list_vacuous(store.items@);
    lemma_update_list_vacuous(store.items@);
}

/// Partition: the two flush lists hold exactly the records that need
/// writing — every listed record is a cached record in the matching
/// dirty state, and every such record of the store is listed. A
/// record with caching off, or an unchanged one, appears in neither.
pub proof fn lemma_drain_dirty_partition(items: Seq<StoreDataItem>)
    ensures
        forall|k: int|
            0 <= k < spec_insert_list(items).len() ==> spec_needs_insert(
                #[trigger] spec_insert_list(items)[k],
            ),
        forall|k: int|
            0 <= k < spec_update_list(items).len() ==> spec_needs_update(
                #[trigger] spec_update_list(items)[k],
            ),
        forall|i: int|
            0 <= i < items.len() && spec_needs_insert(#[trigger] items[i])
                ==> spec_insert_list(items).contains(items[i]),
        forall|i: int|
            0 <= i < items.len() && spec_needs_update(#[trigger] items[i])
                ==> spec_update_list(items).contains(items[i]),
{
    broadcast use vstd::seq_lib::group_filter_ensures;

}

impl Store {
    /// At most one record per (url, cache key) pair.
    pub open spec fn spec_wf(self) -> bool {
        forall|i: int, j: int|
            #![trigger self.items@[i], self.items@[j]]
            0 <= i < j < self.items@.len() ==> !key_matches(
                self.items@[i],
                self.items@[j].url@,
                self.items@[j].cache_key@,
            )
    }

    /// Some record carries the given url and cache key.
    pub open spec fn spec_has(self, url: Seq<char>, key: Seq<char>) -> bool {
        exists|i: int| 0 <= i < self.items@.len() && key_matches(#[trigger] self.items@[i], url, key)
    }

    /// Index of the record with the given url and cache key.
    pub open spec fn spec_index_of(self, url: Seq<char>, key: Seq<char>) -> int {
        choose|i: int| 0 <= i < self.items@.len() && key_matches(#[trigger] self.items@[i], url, key)
    }

    /// The record with the given url and cache key.
    pub open spec fn spec_get(self, url: Seq<char>, key: Seq<char>) -> StoreDataItem {
        self.items@[self.spec_index_of(url, key)]
    }

    /// Some record is not yet mirrored by the persistent table.
    pub open spec fn spec_dirty(self) -> bool {
        exists|i: int| 0 <= i < self.items@.len() && spec_is_dirty(#[trigger] self.items@[i])
    }

    /// An empty store.
    pub fn new() -> (r: Self)
        ensures
            r.items@.len() == 0,
            r.spec_wf(),
    {
        Store { items: Vec::new() }
    }

    /// The canonical cache key of a rendering request.
    pub fn create_cache_key(options: &PreviewOptions) -> (r: String)
        ensures
            r@ == spec_cache_key(*options),
    {
        let mut key = options.output_kind.get_string_name();
        key.append("_");
        let width = match options.width {
            Some(v) => v,
            None => 0,
        };
        let height = match options.height {
            Some(v) => v,
            None => 0,
        };
        let width_text = u32_to_string(width);
        key.append(width_text.as_str());
        key.append("_");
        let height_text = u32_to_string(height);
        key.append(height_text.as_str());
        proof {
            assert(key@ =~= spec_cache_key(*options));
        }
        key
    }

    /// Initialize the store with the rows loaded from the persistent
    /// table; the table's uniqueness constraint is the caller's word
    /// that no two carry the same pair.
    pub fn bulk_insert(&mut self, items: Vec<StoreDataItem>)
        requires
            old(self).items@.len() == 0,
            forall|i: int, j: int|
                #![trigger items@[i], items@[j]]
                0 <= i < j < items@.len() ==> !key_matches(
                    items@[i],
                    items@[j].url@,
                    items@[j].cache_key@,
                ),
        ensures
            final(self).items@ == items@,
            final(self).spec_wf(),
    {
        self.items = items;
    }

    /// Whether any record still has to be flushed.
    pub fn has_changes(&self) -> (r: bool)
        ensures
            r == self.spec_dirty(),
    {
        let mut i: usize = 0;
        while i < self.items.len()
            invariant
                i <= self.items@.len(),
                forall|j: int| 0 <= j < i ==> !spec_is_dirty(#[trigger] self.items@[j]),
            decreases self.items@.len() - i,
        {
            match self.items[i].write_state {
                WriteState::Clean => {},
                WriteState::Insert => {
                    return true;
                },
                WriteState::Update => {
                    return true;
                },
            }
            i = i + 1;
        }
        false
    }

    /// Turn a persistent row into the record it stands for: already
    /// clean, cached, with its persistent key held.
    pub fn create_item_from_row(&self, row: ImageRow) -> (r: StoreDataItem)
        ensures
            r.id == Some(row.id),
            r.url@ == row.url@,
            r.placeholder@ == row.placeholder@,
            r.cache,
            r.preview_type == spec_kind_from(row.preview_type@),
            r.cache_key@ == row.cache_key@,
            r.original_width == row.original_width,
            r.original_height == row.original_height,
            r.write_state == WriteState::Clean,
    {
        let preview_type = PlaceholderImageOutputKind::from_string(row.preview_type.as_str());
        StoreDataItem {
            id: Some(row.id),
            url: row.url,
            placeholder: row.placeholder,
            cache: true,
            preview_type,
            cache_key: row.cache_key,
            original_width: row.original_width,
            original_height: row.original_height,
            write_state: WriteState::Clean,
        }
    }

    /// Index of the record carrying the given url and cache key, if any.
    pub(crate) fn find_index(&self, url: &str, cache_key: &str) -> (r: Option<usize>)
        ensures
            match r {
                Some(i) => i < self.items@.len() && key_matches(
                    self.items@[i as int],
                    url@,
                    cache_key@,
                ),
                None => !self.spec_has(url@, cache_key@),
            },
    {
        let mut i: usize = 0;
        while i < self.items.len()
            invariant
                i <= self.items@.len(),
                forall|j: int|
                    0 <= j < i ==> !key_matches(#[trigger] self.items@[j], url@, cache_key@),
            decreases self.items@.len() - i,
        {
            let item = &self.items[i];
            if str_eq(item.url.as_str(), url) && str_eq(item.cache_key.as_str(), cache_key) {
                return Some(i);
            }
            i = i + 1;
        }
        None
    }

    /// Upsert the freshly built placeholder for (url, options): an
    /// existing record for the pair is rewritten in place, keeping its
    /// persistent key and moving to `Update`; otherwise a new record is
    /// appended as `Insert` with no persistent key yet.
    pub fn insert_or_update(
        &mut self,
        url: String,
        placeholder: String,
        original_width: u32,
        original_height: u32,
        options: &PreviewOptions,
    )
        requires
            old(self).spec_wf(),
        ensures
            final(self).spec_wf(),
            old(self).spec_has(url@, spec_cache_key(*options)) ==> {
                let i = old(self).spec_index_of(url@, spec_cache_key(*options));
                &&& final(self).items@.len() == old(self).items@.len()
                &&& forall|j: int|
                    0 <= j < old(self).items@.len() && j != i ==> final(self).items@[j] == old(
                        self,
                    ).items@[j]
                &&& spec_upserted(
                    final(self).items@[i],
                    old(self).items@[i].id,
                    url@,
                    placeholder@,
                    original_width,
                    original_height,
                    *options,
                    WriteState::Update,
                )
            },
            !old(self).spec_has(url@, spec_cache_key(*options)) ==> {
                &&& final(self).items@.len() == old(self).items@.len() + 1
                &&& forall|j: int|
                    0 <= j < old(self).items@.len() ==> final(self).items@[j] == old(self).items@[j]
                &&& spec_upserted(
                    final(self).items@[old(self).items@.len() as int],
                    None,
                    url@,
                    placeholder@,
                    original_width,
                    original_height,
                    *options,
                    WriteState::Insert,
                )
            },
            final(self).spec_has(url@, spec_cache_key(*options)),
    {
        let cache_key = Store::create_cache_key(options);
        let found = self.find_index(url.as_str(), cache_key.as_str());
        match found {
            Some(i) => {
                let prior_id = self.items[i].id;
                let rec = StoreDataItem {
                    id: prior_id,
                    url,
                    placeholder,
                    cache: options.cache,
                    preview_type: options.output_kind,
                    cache_key,
                    original_width,
                    original_height,
                    write_state: WriteState::Update,
                };
                proof {
                    let gi = old(self).spec_index_of(url@, spec_cache_key(*options));
                    assert(key_matches(old(self).items@[i as int], url@, spec_cache_key(*options)));
                    assert(0 <= gi < old(self).items@.len() && key_matches(
                        old(self).items@[gi],
                        url@,
                        spec_cache_key(*options),
                    ));
                    if gi != i {
                        assert(false);
                    }
                }
                self.items[i] = rec;
                proof {
                    assert forall|a: int, b: int|
                        0 <= a < b < self.items@.len() implies !key_matches(
                        self.items@[a],
                        self.items@[b].url@,
                        self.items@[b].cache_key@,
                    ) by {
                        assert(!key_matches(
                            old(self).items@[a],
                            old(self).items@[b].url@,
                            old(self).items@[b].cache_key@,
                        ));
                    }
                }
            },
            None => {
                let rec = StoreDataItem {
                    id: None,
                    url,
                    placeholder,
                    cache: options.cache,
                    preview_type: options.output_kind,
                    cache_key,
                    original_width,
                    original_height,
                    write_state: WriteState::Insert,
                };
                self.items.push(rec);
                proof {
                    let n = old(self).items@.len() as int;
                    assert(key_matches(self.items@[n], url@, spec_cache_key(*options)));
                    assert forall|a: int, b: int|
                        0 <= a < b < self.items@.len() implies !key_matches(
                        self.items@[a],
                        self.items@[b].url@,
                        self.items@[b].cache_key@,
                    ) by {
                        if b < n {
                            assert(!key_matches(
                                old(self).items@[a],
                                old(self).items@[b].url@,
                                old(self).items@[b].cache_key@,
                            ));
                        } else {
                            assert(!old(self).spec_has(url@, spec_cache_key(*options)));
                        }
                    }
                }
            },
        }
    }

    /// Whether a placeholder for (url, options) is already present.
    pub fn has_cached_image(&self, url: &str, options: &PreviewOptions) -> (r: bool)
        ensures
            r == self.spec_has(url@, spec_cache_key(*options)),
    {
        let cache_key = Store::create_cache_key(options);
        match self.find_index(url, cache_key.as_str()) {
            Some(_) => true,
            None => false,
        }
    }

    /// The stored placeholder for (url, options), or `NotFound` when no
    /// record carries the pair.
    pub fn get_placeholder_from_url_and_options(
        &self,
        url: &str,
        options: &PreviewOptions,
    ) -> (r: Result<String, StoreError>)
        requires
            self.spec_wf(),
        ensures
            r is Ok <==> self.spec_has(url@, spec_cache_key(*options)),
            r is Ok ==> r->Ok_0@ == self.spec_get(url@, spec_cache_key(*options)).placeholder@,
    {
        let cache_key = Store::create_cache_key(options);
        match self.find_index(url, cache_key.as_str()) {
            Some(i) => {
                proof {
                    let gi = self.spec_index_of(url@, spec_cache_key(*options));
                    if gi != i {
                        assert(key_matches(self.items@[gi], url@, spec_cache_key(*options)));
                        assert(false);
                    }
                }
                Ok(self.items[i].placeholder.clone())
            },
            None => Err(StoreError::NotFound),
        }
    }

    /// The two ordered lists a flush executes: rows to insert and rows
    /// to rewrite, in store order; records with caching off and clean
    /// records appear in neither.
    pub fn get_prepared_data(&self) -> (r: (Vec<InsertRow>, Vec<UpdateRow>))
        ensures
            r.0@.len() == spec_insert_list(self.items@).len(),
            forall|i: int|
                0 <= i < r.0@.len() ==> spec_insert_row_matches(
                    #[trigger] r.0@[i],
                    spec_insert_list(self.items@)[i],
                ),
            r.1@.len() == spec_update_list(self.items@).len(),
            forall|i: int|
                0 <= i < r.1@.len() ==> spec_update_row_matches(
                    #[trigger] r.1@[i],
                    spec_update_list(self.items@)[i],
                ),
    {
        let mut to_insert: Vec<InsertRow> = Vec::new();
        let mut to_update: Vec<UpdateRow> = Vec::new();
        let mut i: usize = 0;
        proof {
            reveal(Seq::filter);
            assert(self.items@.take(0) =~= Seq::<StoreDataItem>::empty());
        }
        while i < self.items.len()
            invariant
                i <= self.items@.len(),
                to_insert@.len() == spec_insert_list(self.items@.take(i as int)).len(),
                forall|k: int|
                    0 <= k < to_insert@.len() ==> spec_insert_row_matches(
                        #[trigger] to_insert@[k],
                        spec_insert_list(self.items@.take(i as int))[k],
                    ),
                to_update@.len() == spec_update_list(self.items@.take(i as int)).len(),
                forall|k: int|
                    0 <= k < to_update@.len() ==> spec_update_row_matches(
                        #[trigger] to_update@[k],
                        spec_update_list(self.items@.take(i as int))[k],
                    ),
            decreases self.items@.len() - i,
        {
            let item = &self.items[i];
            proof {
                lemma_insert_list_step(self.items@, i as int);
                lemma_update_list_step(self.items@, i as int);
            }
            let ghost prev_inserts = spec_insert_list(self.items@.take(i as int));
            let ghost prev_insert_rows = to_insert@;
            let ghost prev_updates = spec_update_list(self.items@.take(i as int));
            let ghost prev_update_rows = to_update@;
            let keep_insert = item.cache && matches!(item.write_state, WriteState::Insert);
            let keep_update = item.cache && matches!(item.write_state, WriteState::Update);
            if keep_insert {
                to_insert.push(
                    InsertRow {
                        url: item.url.clone(),
                        placeholder: item.placeholder.clone(),
                        preview_type: item.preview_type.get_string_name(),
                        cache_key: item.cache_key.clone(),
                        original_width: item.original_width,
                        original_height: item.original_height,
                    },
                );
            }
            if keep_update {
                let id = match item.id {
                    Some(v) => v,
                    None => 0,
                };
                to_update.push(
                    UpdateRow {
                        id,
                        url: item.url.clone(),
                        placeholder: item.placeholder.clone(),
                        preview_type: item.preview_type.get_string_name(),
                        cache_key: item.cache_key.clone(),
                        original_width: item.original_width,
                        original_height: item.original_height,
                    },
                );
            }
            proof {
                let inserts = spec_insert_list(self.items@.take(i + 1));
                assert forall|k: int| 0 <= k < inserts.len() implies spec_insert_row_matches(
                    #[trigger] to_insert@[k],
                    inserts[k],
                ) by {
                    if k < prev_inserts.len() {
                        assert(to_insert@[k] == prev_insert_rows[k]);
                        assert(spec_insert_row_matches(prev_insert_rows[k], prev_inserts[k]));
                    }
                }
                let updates = spec_update_list(self.items@.take(i + 1));
                assert forall|k: int| 0 <= k < updates.len() implies spec_update_row_matches(
                    #[trigger] to_update@[k],
                    updates[k],
                ) by {
                    if k < prev_updates.len() {
                        assert(to_update@[k] == prev_update_rows[k]);
                        assert(spec_update_row_matches(prev_update_rows[k], prev_updates[k]));
                    }
                }
            }
            i = i + 1;
        }
        proof {
            assert(self.items@.take(self.items@.len() as int) =~= self.items@);
        }
        (to_insert, to_update)
    }
}

} // verus!
