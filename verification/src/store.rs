//! What the application remembers: statistics, the dictionary, the settings.
//!
//! `Store` holds the data in memory and every method states what it reads or
//! changes. Writing the data to disk after a change, and reading it at
//! startup, is the caller's part.

use crate::text::{
    count_words, decimal_digits, ends_with, lowercase, option_view, push_decimal, str_eq,
    to_lowercase, trim, trimmed, words,
};
use vstd::prelude::*;
use vstd::string::*;

verus! {

/// The history keeps this many entries, the newest ones.
pub const HISTORY_LIMIT: usize = 500;

/// A phrase that the user taught the dictionary.
#[derive(Debug, PartialEq, Eq)]
pub struct DictionaryEntry {
    pub id: String,
    pub phrase: String,
    pub replacement: Option<String>,
    /// One of "custom", "replacement" and "blocked".
    pub entry_type: String,
}

/// A dictionary entry as plain values.
pub struct DictionaryEntryView {
    pub id: Seq<char>,
    pub phrase: Seq<char>,
    pub replacement: Option<Seq<char>>,
    pub entry_type: Seq<char>,
}

impl View for DictionaryEntry {
    type V = DictionaryEntryView;

    open spec fn view(&self) -> DictionaryEntryView {
        DictionaryEntryView {
            id: self.id@,
            phrase: self.phrase@,
            replacement: option_view(self.replacement),
            entry_type: self.entry_type@,
        }
    }
}

impl Clone for DictionaryEntry {
    fn clone(&self) -> (r: Self)
        ensures
            r@ == self@,
    {
        DictionaryEntry {
            id: self.id.clone(),
            phrase: self.phrase.clone(),
            replacement: self.replacement.clone(),
            entry_type: self.entry_type.clone(),
        }
    }
}

/// One dictation that was pasted.
#[derive(Debug, PartialEq, Eq)]
pub struct HistoryEntry {
    pub text: String,
    /// Milliseconds since the epoch.
    pub timestamp: u64,
    pub word_count: u32,
}

/// A history entry as plain values.
pub struct HistoryEntryView {
    pub text: Seq<char>,
    pub timestamp: u64,
    pub word_count: u32,
}

impl View for HistoryEntry {
    type V = HistoryEntryView;

    open spec fn view(&self) -> HistoryEntryView {
        HistoryEntryView {
            text: self.text@,
            timestamp: self.timestamp,
            word_count: self.word_count,
        }
    }
}

impl Clone for HistoryEntry {
    fn clone(&self) -> (r: Self)
        ensures
            r@ == self@,
    {
        HistoryEntry {
            text: self.text.clone(),
            timestamp: self.timestamp,
            word_count: self.word_count,
        }
    }
}

/// The views of a run of dictionary entries.
pub open spec fn entry_views(s: Seq<DictionaryEntry>) -> Seq<DictionaryEntryView> {
    Seq::new(s.len(), |i: int| s[i]@)
}

/// The views of a run of history entries.
pub open spec fn history_views(s: Seq<HistoryEntry>) -> Seq<HistoryEntryView> {
    Seq::new(s.len(), |i: int| s[i]@)
}

/// Totals since the start, and the newest dictations.
#[derive(Debug, PartialEq, Eq)]
pub struct Stats {
    pub total_dictations: u64,
    pub total_words: u64,
    pub history: Vec<HistoryEntry>,
}

/// Statistics as plain values.
pub struct StatsView {
    pub total_dictations: u64,
    pub total_words: u64,
    pub history: Seq<HistoryEntryView>,
}

impl View for Stats {
    type V = StatsView;

    open spec fn view(&self) -> StatsView {
        StatsView {
            total_dictations: self.total_dictations,
            total_words: self.total_words,
            history: history_views(self.history@),
        }
    }
}

/// Copies a run of history entries.
fn clone_history(v: &Vec<HistoryEntry>) -> (r: Vec<HistoryEntry>)
    ensures
        history_views(r@) == history_views(v@),
{
    let mut out: Vec<HistoryEntry> = Vec::new();
    let mut i: usize = 0;
    while i < v.len()
        invariant
            i <= v@.len(),
            out@.len() == i,
            forall|j: int| 0 <= j < i ==> out@[j]@ == v@[j]@,
        decreases v@.len() - i,
    {
        out.push(v[i].clone());
        i += 1;
    }
    assert(history_views(out@) =~= history_views(v@));
    out
}

/// Copies a run of dictionary entries.
fn clone_entries(v: &Vec<DictionaryEntry>) -> (r: Vec<DictionaryEntry>)
    ensures
        entry_views(r@) == entry_views(v@),
{
    let mut out: Vec<DictionaryEntry> = Vec::new();
    let mut i: usize = 0;
    while i < v.len()
        invariant
            i <= v@.len(),
            out@.len() == i,
            forall|j: int| 0 <= j < i ==> out@[j]@ == v@[j]@,
        decreases v@.len() - i,
    {
        out.push(v[i].clone());
        i += 1;
    }
    assert(entry_views(out@) =~= entry_views(v@));
    out
}

impl Clone for Stats {
    fn clone(&self) -> (r: Self)
        ensures
            r@ == self@,
    {
        Stats {
            total_dictations: self.total_dictations,
            total_words: self.total_words,
            history: clone_history(&self.history),
        }
    }
}

impl Default for Stats {
    /// Nothing dictated yet.
    fn default() -> (r: Self)
        ensures
            r@ == (StatsView { total_dictations: 0, total_words: 0, history: Seq::empty() }),
    {
        let r = Stats { total_dictations: 0, total_words: 0, history: Vec::new() };
        assert(history_views(r.history@) =~= Seq::empty());
        r
    }
}

/// Where the remote service is and the key to it. Empty means not set.
#[derive(Debug, PartialEq, Eq)]
pub struct ApiConfig {
    pub endpoint: String,
    pub api_key: String,
}

/// The remote service's configuration as plain values.
pub struct ApiConfigView {
    pub endpoint: Seq<char>,
    pub api_key: Seq<char>,
}

impl View for ApiConfig {
    type V = ApiConfigView;

    open spec fn view(&self) -> ApiConfigView {
        ApiConfigView { endpoint: self.endpoint@, api_key: self.api_key@ }
    }
}

impl Clone for ApiConfig {
    fn clone(&self) -> (r: Self)
        ensures
            r@ == self@,
    {
        ApiConfig { endpoint: self.endpoint.clone(), api_key: self.api_key.clone() }
    }
}

impl Default for ApiConfig {
    /// Nothing set.
    fn default() -> (r: Self)
        ensures
            r@ == (ApiConfigView { endpoint: Seq::empty(), api_key: Seq::empty() }),
    {
        ApiConfig { endpoint: String::new(), api_key: String::new() }
    }
}

/// Which backend transcribes, and the local model to use.
#[derive(Debug, PartialEq, Eq)]
pub struct TranscriptionConfig {
    /// "azure" for the remote service, "local" for the on-device model.
    pub source: String,
    /// Path of the model file. Empty means the default path for the size.
    pub local_model_path: String,
    /// "tiny", "small", "medium" or "large".
    pub local_model_size: String,
}

/// The transcription configuration as plain values.
pub struct TranscriptionConfigView {
    pub source: Seq<char>,
    pub local_model_path: Seq<char>,
    pub local_model_size: Seq<char>,
}

impl View for TranscriptionConfig {
    type V = TranscriptionConfigView;

    open spec fn view(&self) -> TranscriptionConfigView {
        TranscriptionConfigView {
            source: self.source@,
            local_model_path: self.local_model_path@,
            local_model_size: self.local_model_size@,
        }
    }
}

impl Clone for TranscriptionConfig {
    fn clone(&self) -> (r: Self)
        ensures
            r@ == self@,
    {
        TranscriptionConfig {
            source: self.source.clone(),
            local_model_path: self.local_model_path.clone(),
            local_model_size: self.local_model_size.clone(),
        }
    }
}

impl Default for TranscriptionConfig {
    /// The remote service, and the smallest model should the local backend
    /// be chosen.
    fn default() -> (r: Self)
        ensures
            r@ == (TranscriptionConfigView {
                source: "azure"@,
                local_model_path: Seq::empty(),
                local_model_size: "tiny"@,
            }),
    {
        TranscriptionConfig {
            source: "azure".to_string(),
            local_model_path: String::new(),
            local_model_size: "tiny".to_string(),
        }
    }
}

/// The user's settings.
#[derive(Debug, PartialEq, Eq)]
pub struct Settings {
    pub sounds_enabled: bool,
    pub auto_paste: bool,
    pub launch_at_login: bool,
    pub api_config: ApiConfig,
    pub transcription: TranscriptionConfig,
}

/// The settings as plain values.
pub struct SettingsView {
    pub sounds_enabled: bool,
    pub auto_paste: bool,
    pub launch_at_login: bool,
    pub api_config: ApiConfigView,
    pub transcription: TranscriptionConfigView,
}

impl View for Settings {
    type V = SettingsView;

    open spec fn view(&self) -> SettingsView {
        SettingsView {
            sounds_enabled: self.sounds_enabled,
            auto_paste: self.auto_paste,
            launch_at_login: self.launch_at_login,
            api_config: self.api_config@,
            transcription: self.transcription@,
        }
    }
}

impl Clone for Settings {
    fn clone(&self) -> (r: Self)
        ensures
            r@ == self@,
    {
        Settings {
            sounds_enabled: self.sounds_enabled,
            auto_paste: self.auto_paste,
            launch_at_login: self.launch_at_login,
            api_config: self.api_config.clone(),
            transcription: self.transcription.clone(),
        }
    }
}

/// The settings of a fresh installation.
pub open spec fn default_settings() -> SettingsView {
    SettingsView {
        sounds_enabled: true,
        auto_paste: true,
        launch_at_login: false,
        api_config: ApiConfigView { endpoint: Seq::empty(), api_key: Seq::empty() },
        transcription: TranscriptionConfigView {
            source: "azure"@,
            local_model_path: Seq::empty(),
            local_model_size: "tiny"@,
        },
    }
}

impl Default for Settings {
    /// Sounds and automatic paste on, launch at login off.
    fn default() -> (r: Self)
        ensures
            r@ == default_settings(),
    {
        Settings {
            sounds_enabled: true,
            auto_paste: true,
            launch_at_login: false,
            api_config: ApiConfig::default(),
            transcription: TranscriptionConfig::default(),
        }
    }
}

/// All that is kept on disk.
#[derive(Debug, PartialEq, Eq)]
pub struct StoreData {
    pub stats: Stats,
    pub dictionary: Vec<DictionaryEntry>,
    pub settings: Settings,
}

/// The stored data as plain values.
pub struct StoreDataView {
    pub stats: StatsView,
    pub dictionary: Seq<DictionaryEntryView>,
    pub settings: SettingsView,
}

impl View for StoreData {
    type V = StoreDataView;

    open spec fn view(&self) -> StoreDataView {
        StoreDataView {
            stats: self.stats@,
            dictionary: entry_views(self.dictionary@),
            settings: self.settings@,
        }
    }
}

impl Clone for StoreData {
    fn clone(&self) -> (r: Self)
        ensures
            r@ == self@,
    {
        StoreData {
            stats: self.stats.clone(),
            dictionary: clone_entries(&self.dictionary),
            settings: self.settings.clone(),
        }
    }
}

/// The data of a fresh installation.
pub open spec fn default_data() -> StoreDataView {
    StoreDataView {
        stats: StatsView { total_dictations: 0, total_words: 0, history: Seq::empty() },
        dictionary: Seq::empty(),
        settings: default_settings(),
    }
}

impl Default for StoreData {
    /// No statistics, an empty dictionary, the default settings.
    fn default() -> (r: Self)
        ensures
            r@ == default_data(),
    {
        let r = StoreData {
            stats: Stats::default(),
            dictionary: Vec::new(),
            settings: Settings::default(),
        };
        assert(entry_views(r.dictionary@) =~= Seq::empty());
        r
    }
}

/// The size tier that a configured size stands for: `small`, `medium` and
/// `large` are themselves, everything else is `tiny`.
pub open spec fn size_tier(t: Seq<char>) -> Seq<char> {
    if t == "small"@ || t == "medium"@ || t == "large"@ {
        t
    } else {
        "tiny"@
    }
}

/// The size tier of what the user typed: trimmed and in lowercase first.
pub open spec fn normalized_size(s: Seq<char>) -> Seq<char> {
    size_tier(lowercase(trimmed(s)))
}

/// The name of the model file of a size tier. Unknown sizes get the smallest
/// model.
pub open spec fn model_filename(size: Seq<char>) -> Seq<char> {
    if size == "small"@ {
        "ggml-small.en.bin"@
    } else if size == "medium"@ {
        "ggml-medium.en.bin"@
    } else if size == "large"@ {
        "ggml-large-v3.bin"@
    } else {
        "ggml-tiny.en.bin"@
    }
}

/// A file or folder name and no more: not empty, not `.` or `..`, and
/// without a path separator or a colon, so that no platform reads a
/// directory, a root or a drive in it.
pub open spec fn is_plain_name(name: Seq<char>) -> bool {
    &&& name.len() > 0
    &&& name != "."@
    &&& name != ".."@
    &&& forall|i: int|
        0 <= i < name.len() ==> #[trigger] name[i] != '/' && name[i] != '\\' && name[i] != ':'
}

/// The folder of the models.
pub open spec fn models_folder() -> Seq<char> {
    "models"@
}

/// The file that records the activation.
pub open spec fn license_file() -> Seq<char> {
    "license.json"@
}

/// The names of the model files are plain names.
pub proof fn lemma_model_filename_is_plain(size: Seq<char>)
    ensures
        is_plain_name(model_filename(size)),
{
    reveal_strlit(".");
    reveal_strlit("..");
    assert("."@.len() == 1 && ".."@.len() == 2);
    reveal_strlit("ggml-small.en.bin");
    reveal_strlit("ggml-medium.en.bin");
    reveal_strlit("ggml-large-v3.bin");
    reveal_strlit("ggml-tiny.en.bin");
}

/// The folder of the models and the file of the activation have plain
/// names.
pub proof fn lemma_fixed_names_are_plain()
    ensures
        is_plain_name(models_folder()),
        is_plain_name(license_file()),
{
    reveal_strlit(".");
    reveal_strlit("..");
    assert("."@.len() == 1 && ".."@.len() == 2);
    reveal_strlit("models");
    assert(models_folder().len() == 6);
    assert(is_plain_name(models_folder()));
    reveal_strlit("license.json");
    let name = license_file();
    assert(name.len() == 12);
    assert forall|i: int| 0 <= i < name.len() implies #[trigger] name[i] != '/' && name[i]
        != '\\' && name[i] != ':' by {
        if i < 4 {
        } else if i < 8 {
        } else {
        }
    }
}

/// The name of the model file of a size tier.
pub fn model_filename_for_size(size: &str) -> (name: &'static str)
    ensures
        name@ == model_filename(size@),
        is_plain_name(name@),
{
    proof {
        lemma_model_filename_is_plain(size@);
    }
    if str_eq(size, "small") {
        "ggml-small.en.bin"
    } else if str_eq(size, "medium") {
        "ggml-medium.en.bin"
    } else if str_eq(size, "large") {
        "ggml-large-v3.bin"
    } else {
        "ggml-tiny.en.bin"
    }
}

/// The size tier of a size that is already trimmed and in lowercase.
pub fn size_tier_of(t: String) -> (r: String)
    ensures
        r@ == size_tier(t@),
{
    if str_eq(t.as_str(), "small") || str_eq(t.as_str(), "medium") || str_eq(t.as_str(), "large") {
        t
    } else {
        "tiny".to_string()
    }
}

/// The size tier of what the user typed.
pub fn normalize_model_size(s: &str) -> (r: String)
    ensures
        r@ == normalized_size(s@),
{
    size_tier_of(to_lowercase(trim(s)))
}

/// The history after one more entry: the entry is added at the end, and of
/// what is then there the newest `HISTORY_LIMIT` are kept.
pub open spec fn history_after(history: Seq<HistoryEntryView>, entry: HistoryEntryView) -> Seq<
    HistoryEntryView,
> {
    let all = history.push(entry);
    if all.len() > HISTORY_LIMIT {
        all.subrange(all.len() - HISTORY_LIMIT, all.len() as int)
    } else {
        all
    }
}

/// The number of words of a text as the history counts them, in 32 bits.
pub open spec fn word_count_of(text: Seq<char>) -> u32 {
    (words(text).len() % 0x1_0000_0000) as u32
}

/// The statistics after a dictation of `text` at `timestamp`.
pub open spec fn stats_after(stats: StatsView, text: Seq<char>, timestamp: u64) -> StatsView {
    StatsView {
        total_dictations: (stats.total_dictations + 1) as u64,
        total_words: (stats.total_words + word_count_of(text)) as u64,
        history: history_after(
            stats.history,
            HistoryEntryView { text, timestamp, word_count: word_count_of(text) },
        ),
    }
}

/// The identifier of a dictionary entry made at `millis` milliseconds since
/// the epoch.
pub open spec fn entry_id(millis: u128) -> Seq<char> {
    "dict_"@ + decimal_digits(millis as nat)
}

/// Index of the first entry with this identifier, or the length where there
/// is none.
pub open spec fn position_of(entries: Seq<DictionaryEntryView>, id: Seq<char>) -> int
    decreases entries.len(),
{
    if entries.len() == 0 {
        0
    } else if entries[0].id == id {
        0
    } else {
        1 + position_of(entries.drop_first(), id)
    }
}

/// The dictionary after an update of the entry `id`: the first entry with
/// this identifier gets the new contents and keeps its place.
pub open spec fn updated(
    entries: Seq<DictionaryEntryView>,
    id: Seq<char>,
    phrase: Seq<char>,
    replacement: Option<Seq<char>>,
    entry_type: Seq<char>,
) -> Seq<DictionaryEntryView> {
    let at = position_of(entries, id);
    if at < entries.len() {
        entries.update(at, DictionaryEntryView { id, phrase, replacement, entry_type })
    } else {
        entries
    }
}

/// The test that an entry has another identifier than `id`.
pub open spec fn other_than(id: Seq<char>) -> spec_fn(DictionaryEntryView) -> bool {
    |e: DictionaryEntryView| e.id != id
}

/// The dictionary without the entries `id`.
pub open spec fn without(entries: Seq<DictionaryEntryView>, id: Seq<char>) -> Seq<
    DictionaryEntryView,
> {
    entries.filter(other_than(id))
}

/// The settings after the switch `key` is set to `value`. Unknown keys
/// change nothing.
pub open spec fn setting_updated(s: SettingsView, key: Seq<char>, value: bool) -> SettingsView {
    if key == "sounds_enabled"@ {
        SettingsView { sounds_enabled: value, ..s }
    } else if key == "auto_paste"@ {
        SettingsView { auto_paste: value, ..s }
    } else if key == "launch_at_login"@ {
        SettingsView { launch_at_login: value, ..s }
    } else {
        s
    }
}

/// A configured value counts when it is not empty.
pub open spec fn non_empty(value: Seq<char>) -> Option<Seq<char>> {
    if value.len() > 0 {
        Some(value)
    } else {
        None
    }
}

/// The backend that the settings name: "local", or "azure" for anything
/// else.
pub open spec fn source_of(configured: Seq<char>) -> Seq<char> {
    if configured == "local"@ {
        "local"@
    } else {
        "azure"@
    }
}

/// Where a model file is looked for, in parts.
#[derive(Debug, PartialEq, Eq)]
pub struct ModelLocation {
    /// The application's data directory.
    pub dir: String,
    /// The folder in it that holds the models.
    pub folder: &'static str,
    /// The name of the model's file in that folder.
    pub file: &'static str,
}

/// A model location as plain values.
pub struct ModelLocationView {
    pub dir: Seq<char>,
    pub folder: Seq<char>,
    pub file: Seq<char>,
}

impl View for ModelLocation {
    type V = ModelLocationView;

    open spec fn view(&self) -> ModelLocationView {
        ModelLocationView { dir: self.dir@, folder: self.folder@, file: self.file@ }
    }
}

/// A location, if any, as plain values.
pub open spec fn location_view(r: Option<ModelLocation>) -> Option<ModelLocationView> {
    match r {
        Some(l) => Some(l@),
        None => None,
    }
}

/// The default location of the model of a size under a data directory.
pub open spec fn model_location(dir: Option<Seq<char>>, size: Seq<char>) -> Option<
    ModelLocationView,
> {
    match dir {
        Some(d) => Some(
            ModelLocationView { dir: d, folder: models_folder(), file: model_filename(size) },
        ),
        None => None,
    }
}

/// The state of the store.
pub struct Store {
    data: StoreData,
    app_data_dir: Option<String>,
}

impl Default for Store {
    /// The data of a fresh installation, and no directory yet.
    fn default() -> (s: Self)
        ensures
            s.data() == default_data(),
            s.app_data_dir() is None,
    {
        Store { data: StoreData::default(), app_data_dir: None }
    }
}

proof fn lemma_position_of(entries: Seq<DictionaryEntryView>, id: Seq<char>, k: int)
    requires
        0 <= k <= entries.len(),
        forall|j: int| 0 <= j < k ==> entries[j].id != id,
        k == entries.len() || entries[k].id == id,
    ensures
        position_of(entries, id) == k,
    decreases entries.len(),
{
    if entries.len() > 0 && k > 0 {
        let rest = entries.drop_first();
        assert forall|j: int| 0 <= j < k - 1 implies rest[j].id != id by {
            assert(rest[j] == entries[j + 1]);
        }
        lemma_position_of(rest, id, k - 1);
    }
}

proof fn lemma_filter_all<A>(s: Seq<A>, keep: spec_fn(A) -> bool)
    ensures
        s.filter(keep).len() <= s.len(),
        s.filter(keep).len() == s.len() ==> s.filter(keep) == s,
    decreases s.len(),
{
    reveal_with_fuel(Seq::filter, 2);
    if s.len() > 0 {
        lemma_filter_all(s.drop_last(), keep);
        if s.filter(keep).len() == s.len() {
            assert(s.drop_last().push(s.last()) =~= s);
        }
    }
}

impl Store {
    /// The data that is held.
    pub closed spec fn data(self) -> StoreDataView {
        self.data@
    }

    /// The application's data directory, once known.
    pub closed spec fn app_data_dir(self) -> Option<Seq<char>> {
        option_view(self.app_data_dir)
    }

    /// Takes the data directory and, where there is any, the data that was
    /// read from it. Without stored data the store keeps what it holds.
    pub fn init(&mut self, app_data_dir: String, stored: Option<StoreData>)
        ensures
            final(self).app_data_dir() == Some(app_data_dir@),
            final(self).data() == match stored {
                Some(d) => d@,
                None => old(self).data(),
            },
    {
        match stored {
            Some(d) => {
                self.data = d;
            },
            None => {},
        }
        self.app_data_dir = Some(app_data_dir);
    }

    /// A copy of all the data, for writing it to disk.
    pub fn snapshot(&self) -> (d: StoreData)
        ensures
            d@ == self.data(),
    {
        self.data.clone()
    }

    /// The statistics.
    pub fn get_stats(&self) -> (r: Stats)
        ensures
            r@ == self.data().stats,
    {
        self.data.stats.clone()
    }

    /// Counts a dictation of `text` made at `timestamp`, in milliseconds
    /// since the epoch. The counters must have room.
    pub fn record_dictation_at(&mut self, text: &str, timestamp: u64)
        requires
            old(self).data().stats.total_dictations < u64::MAX,
            old(self).data().stats.total_words + word_count_of(text@) <= u64::MAX,
        ensures
            final(self).data() == (StoreDataView {
                stats: stats_after(old(self).data().stats, text@, timestamp),
                ..old(self).data()
            }),
            final(self).app_data_dir() == old(self).app_data_dir(),
    {
        let count: usize = count_words(text);
        let word_count: u32 = ((count as u64) % 0x1_0000_0000u64) as u32;
        let ghost before = history_views(self.data.stats.history@);
        self.data.stats.total_dictations = self.data.stats.total_dictations + 1;
        self.data.stats.total_words = self.data.stats.total_words + word_count as u64;
        self.data.stats.history.push(HistoryEntry { text: text.to_string(), timestamp, word_count });
        let ghost all = history_views(self.data.stats.history@);
        assert(all =~= before.push(HistoryEntryView { text: text@, timestamp, word_count }));
        let len: usize = self.data.stats.history.len();
        if len > HISTORY_LIMIT {
            let kept = self.data.stats.history.split_off(len - HISTORY_LIMIT);
            self.data.stats.history = kept;
            assert(history_views(self.data.stats.history@) =~= all.subrange(
                all.len() - HISTORY_LIMIT,
                all.len() as int,
            ));
        }
    }

    /// Counts a dictation of `text` made now.
    pub fn record_dictation(&mut self, text: &str)
        requires
            old(self).data().stats.total_dictations < u64::MAX,
            old(self).data().stats.total_words + word_count_of(text@) <= u64::MAX,
        ensures
            exists|timestamp: u64|
                final(self).data() == (StoreDataView {
                    stats: #[trigger] stats_after(old(self).data().stats, text@, timestamp),
                    ..old(self).data()
                }),
            final(self).app_data_dir() == old(self).app_data_dir(),
    {
        let millis: u128 = now_millis();
        let timestamp: u64 = (millis % 0x1_0000_0000_0000_0000u128) as u64;
        self.record_dictation_at(text, timestamp);
    }

    /// Whether the counters have room for a dictation of `text`.
    pub fn has_room_for(&self, text: &str) -> (room: bool)
        ensures
            room == (self.data().stats.total_dictations < u64::MAX
                && self.data().stats.total_words + word_count_of(text@) <= u64::MAX),
    {
        let count: usize = count_words(text);
        let word_count: u32 = ((count as u64) % 0x1_0000_0000u64) as u32;
        self.data.stats.total_dictations < u64::MAX && self.data.stats.total_words <= u64::MAX
            - word_count as u64
    }

    /// Counts a dictation of `text` made now where the counters have room,
    /// and says whether it did. Without room nothing changes.
    pub fn try_record_dictation(&mut self, text: &str) -> (recorded: bool)
        ensures
            recorded == (old(self).data().stats.total_dictations < u64::MAX
                && old(self).data().stats.total_words + word_count_of(text@) <= u64::MAX),
            recorded ==> exists|timestamp: u64|
                final(self).data() == (StoreDataView {
                    stats: #[trigger] stats_after(old(self).data().stats, text@, timestamp),
                    ..old(self).data()
                }),
            !recorded ==> final(self).data() == old(self).data(),
            final(self).app_data_dir() == old(self).app_data_dir(),
    {
        if self.has_room_for(text) {
            self.record_dictation(text);
            true
        } else {
            false
        }
    }

    /// Empties the history. The totals stay.
    pub fn clear_history(&mut self)
        ensures
            final(self).data() == (StoreDataView {
                stats: StatsView { history: Seq::empty(), ..old(self).data().stats },
                ..old(self).data()
            }),
            final(self).app_data_dir() == old(self).app_data_dir(),
    {
        self.data.stats.history.clear();
        assert(history_views(self.data.stats.history@) =~= Seq::empty());
    }

    /// The dictionary.
    pub fn get_dictionary(&self) -> (r: Vec<DictionaryEntry>)
        ensures
            entry_views(r@) == self.data().dictionary,
    {
        clone_entries(&self.data.dictionary)
    }

    /// Adds an entry with the identifier `id` at the end of the dictionary
    /// and returns a copy of it.
    pub fn add_dictionary_entry_with_id(
        &mut self,
        id: String,
        phrase: String,
        replacement: Option<String>,
        entry_type: String,
    ) -> (entry: DictionaryEntry)
        ensures
            entry@ == (DictionaryEntryView {
                id: id@,
                phrase: phrase@,
                replacement: option_view(replacement),
                entry_type: entry_type@,
            }),
            final(self).data() == (StoreDataView {
                dictionary: old(self).data().dictionary.push(entry@),
                ..old(self).data()
            }),
            final(self).app_data_dir() == old(self).app_data_dir(),
    {
        let entry = DictionaryEntry { id, phrase, replacement, entry_type };
        let copy = entry.clone();
        let ghost before = entry_views(self.data.dictionary@);
        self.data.dictionary.push(entry);
        assert(entry_views(self.data.dictionary@) =~= before.push(copy@));
        copy
    }

    /// Adds an entry at the end of the dictionary and returns a copy of it.
    /// The entry's identifier is made of the time of the call.
    pub fn add_dictionary_entry(
        &mut self,
        phrase: String,
        replacement: Option<String>,
        entry_type: String,
    ) -> (entry: DictionaryEntry)
        ensures
            exists|millis: u128| entry@.id == #[trigger] entry_id(millis),
            entry@.phrase == phrase@,
            entry@.replacement == option_view(replacement),
            entry@.entry_type == entry_type@,
            final(self).data() == (StoreDataView {
                dictionary: old(self).data().dictionary.push(entry@),
                ..old(self).data()
            }),
            final(self).app_data_dir() == old(self).app_data_dir(),
    {
        let millis: u128 = now_millis();
        let id = make_entry_id(millis);
        self.add_dictionary_entry_with_id(id, phrase, replacement, entry_type)
    }

    /// Gives the first entry with the identifier `id` new contents. Without
    /// such an entry nothing changes and the error says so.
    pub fn update_dictionary_entry(
        &mut self,
        id: &str,
        phrase: String,
        replacement: Option<String>,
        entry_type: String,
    ) -> (r: Result<(), String>)
        ensures
            final(self).data() == (StoreDataView {
                dictionary: updated(
                    old(self).data().dictionary,
                    id@,
                    phrase@,
                    option_view(replacement),
                    entry_type@,
                ),
                ..old(self).data()
            }),
            final(self).app_data_dir() == old(self).app_data_dir(),
            position_of(old(self).data().dictionary, id@) < old(self).data().dictionary.len()
                ==> r is Ok,
            position_of(old(self).data().dictionary, id@) >= old(self).data().dictionary.len()
                ==> r is Err && r->Err_0@ == "Entry not found"@,
    {
        let ghost before = entry_views(self.data.dictionary@);
        let n: usize = self.data.dictionary.len();
        let mut i: usize = 0;
        while i < n && !str_eq(self.data.dictionary[i].id.as_str(), id)
            invariant
                n == self.data.dictionary@.len(),
                i <= n,
                before == entry_views(self.data.dictionary@),
                *self == *old(self),
                forall|j: int| 0 <= j < i ==> before[j].id != id@,
            decreases n - i,
        {
            i += 1;
        }
        proof {
            lemma_position_of(before, id@, i as int);
        }
        if i < n {
            let entry = DictionaryEntry { id: id.to_string(), phrase, replacement, entry_type };
            let ghost view = entry@;
            self.data.dictionary.set(i, entry);
            assert(entry_views(self.data.dictionary@) =~= before.update(i as int, view));
            Ok(())
        } else {
            Err("Entry not found".to_string())
        }
    }

    /// Removes the entries with the identifier `id`. Without such an entry
    /// nothing changes and the error says so.
    pub fn remove_dictionary_entry(&mut self, id: &str) -> (r: Result<(), String>)
        ensures
            final(self).data() == (StoreDataView {
                dictionary: without(old(self).data().dictionary, id@),
                ..old(self).data()
            }),
            final(self).app_data_dir() == old(self).app_data_dir(),
            final(self).data().dictionary.len() < old(self).data().dictionary.len() ==> r is Ok,
            final(self).data().dictionary.len() >= old(self).data().dictionary.len() ==> r is Err
                && r->Err_0@ == "Entry not found"@,
    {
        let ghost before = entry_views(self.data.dictionary@);
        let ghost keep = other_than(id@);
        let n: usize = self.data.dictionary.len();
        let mut kept: Vec<DictionaryEntry> = Vec::new();
        let mut i: usize = 0;
        while i < n
            invariant
                n == self.data.dictionary@.len(),
                i <= n,
                before == entry_views(self.data.dictionary@),
                *self == *old(self),
                keep == other_than(id@),
                entry_views(kept@) == before.take(i as int).filter(keep),
            decreases n - i,
        {
            proof {
                assert(before.take(i + 1).drop_last() =~= before.take(i as int));
                assert(before.take(i + 1).last() == before[i as int]);
                reveal_with_fuel(Seq::filter, 2);
            }
            if !str_eq(self.data.dictionary[i].id.as_str(), id) {
                let ghost so_far = entry_views(kept@);
                kept.push(self.data.dictionary[i].clone());
                assert(entry_views(kept@) =~= so_far.push(before[i as int]));
            }
            i += 1;
        }
        assert(before.take(n as int) =~= before);
        proof {
            lemma_filter_all(before, keep);
        }
        if kept.len() == n {
            Err("Entry not found".to_string())
        } else {
            self.data.dictionary = kept;
            Ok(())
        }
    }

    /// The settings.
    pub fn get_settings(&self) -> (r: Settings)
        ensures
            r@ == self.data().settings,
    {
        self.data.settings.clone()
    }

    /// Sets one of the switches `sounds_enabled`, `auto_paste` and
    /// `launch_at_login`. Any other key changes nothing.
    pub fn update_setting(&mut self, key: &str, value: bool)
        ensures
            final(self).data() == (StoreDataView {
                settings: setting_updated(old(self).data().settings, key@, value),
                ..old(self).data()
            }),
            final(self).app_data_dir() == old(self).app_data_dir(),
    {
        if str_eq(key, "sounds_enabled") {
            self.data.settings.sounds_enabled = value;
        } else if str_eq(key, "auto_paste") {
            self.data.settings.auto_paste = value;
        } else if str_eq(key, "launch_at_login") {
            self.data.settings.launch_at_login = value;
        }
    }

    /// Whether the feedback tones are on.
    pub fn is_sounds_enabled(&self) -> (b: bool)
        ensures
            b == self.data().settings.sounds_enabled,
    {
        self.data.settings.sounds_enabled
    }

    /// Whether transcripts are pasted without asking.
    pub fn is_auto_paste_enabled(&self) -> (b: bool)
        ensures
            b == self.data().settings.auto_paste,
    {
        self.data.settings.auto_paste
    }

    /// The remote service's configuration.
    pub fn get_api_config(&self) -> (r: ApiConfig)
        ensures
            r@ == self.data().settings.api_config,
    {
        self.data.settings.api_config.clone()
    }

    /// Sets the remote service's endpoint and key.
    pub fn set_api_config(&mut self, endpoint: String, api_key: String)
        ensures
            final(self).data() == (StoreDataView {
                settings: SettingsView {
                    api_config: ApiConfigView { endpoint: endpoint@, api_key: api_key@ },
                    ..old(self).data().settings
                },
                ..old(self).data()
            }),
            final(self).app_data_dir() == old(self).app_data_dir(),
    {
        self.data.settings.api_config.endpoint = endpoint;
        self.data.settings.api_config.api_key = api_key;
    }

    /// The endpoint of the remote service, where one is set.
    pub fn resolve_endpoint(&self) -> (r: Option<String>)
        ensures
            option_view(r) == non_empty(self.data().settings.api_config.endpoint),
    {
        if self.data.settings.api_config.endpoint.as_str().unicode_len() > 0 {
            Some(self.data.settings.api_config.endpoint.clone())
        } else {
            None
        }
    }

    /// The key of the remote service, where one is set.
    pub fn resolve_api_key(&self) -> (r: Option<String>)
        ensures
            option_view(r) == non_empty(self.data().settings.api_config.api_key),
    {
        if self.data.settings.api_config.api_key.as_str().unicode_len() > 0 {
            Some(self.data.settings.api_config.api_key.clone())
        } else {
            None
        }
    }

    /// The transcription configuration.
    pub fn get_transcription_config(&self) -> (r: TranscriptionConfig)
        ensures
            r@ == self.data().settings.transcription,
    {
        self.data.settings.transcription.clone()
    }

    /// Sets the transcription configuration. The size is stored as its tier.
    pub fn set_transcription_config(
        &mut self,
        source: String,
        local_model_path: String,
        local_model_size: String,
    )
        ensures
            final(self).data() == (StoreDataView {
                settings: SettingsView {
                    transcription: TranscriptionConfigView {
                        source: source@,
                        local_model_path: local_model_path@,
                        local_model_size: normalized_size(local_model_size@),
                    },
                    ..old(self).data().settings
                },
                ..old(self).data()
            }),
            final(self).app_data_dir() == old(self).app_data_dir(),
    {
        self.data.settings.transcription.source = source;
        self.data.settings.transcription.local_model_path = local_model_path;
        self.data.settings.transcription.local_model_size = normalize_model_size(
            local_model_size.as_str(),
        );
    }

    /// Where the model of a size is looked for when no path is configured,
    /// in parts: the data directory, the folder `models` in it, and in that
    /// the file of the size. There is no such place before the data
    /// directory is known.
    pub fn default_model_location(&self, size: &str) -> (r: Option<ModelLocation>)
        ensures
            location_view(r) == model_location(self.app_data_dir(), size@),
    {
        match &self.app_data_dir {
            Some(dir) => Some(
                ModelLocation {
                    dir: dir.clone(),
                    folder: "models",
                    file: model_filename_for_size(size),
                },
            ),
            None => None,
        }
    }

    /// Where the model of a size is looked for when no path is configured,
    /// as one path: the parts of `default_model_location`, joined as the
    /// platform joins paths, so that the path ends with the file of the
    /// size.
    pub fn get_default_local_model_path_for_size(&self, size: &str) -> (r: Option<String>)
        ensures
            r is Some <==> self.app_data_dir() is Some,
            r matches Some(path) ==> ends_with(path@, model_filename(size@)),
    {
        match self.default_model_location(size) {
            Some(place) => {
                proof {
                    lemma_model_filename_is_plain(size@);
                    lemma_fixed_names_are_plain();
                }
                let folder = join_path(place.dir.as_str(), place.folder);
                Some(join_path(folder.as_str(), place.file))
            },
            None => None,
        }
    }

    /// The backend that the settings name: "local" or "azure".
    pub fn transcription_source(&self) -> (r: String)
        ensures
            r@ == source_of(self.data().settings.transcription.source),
    {
        if str_eq(self.data.settings.transcription.source.as_str(), "local") {
            "local".to_string()
        } else {
            "azure".to_string()
        }
    }

    /// The path of the local model: the configured one where there is one,
    /// else the default path for the configured size.
    pub fn resolve_local_model_path(&self) -> (r: Option<String>)
        ensures
            self.data().settings.transcription.local_model_path.len() > 0 ==> option_view(r)
                == Some(self.data().settings.transcription.local_model_path),
            self.data().settings.transcription.local_model_path.len() == 0 ==> (r is Some
                <==> self.app_data_dir() is Some),
            self.data().settings.transcription.local_model_path.len() == 0 ==> (r matches Some(
                path,
            ) ==> ends_with(
                path@,
                model_filename(self.data().settings.transcription.local_model_size),
            )),
    {
        if self.data.settings.transcription.local_model_path.as_str().unicode_len() > 0 {
            Some(self.data.settings.transcription.local_model_path.clone())
        } else {
            self.get_default_local_model_path_for_size(
                self.data.settings.transcription.local_model_size.as_str(),
            )
        }
    }

    /// Where the model of the configured size is looked for when no path is
    /// configured: a path that ends with the file of that size.
    pub fn get_default_local_model_path(&self) -> (r: Option<String>)
        ensures
            r is Some <==> self.app_data_dir() is Some,
            r matches Some(path) ==> ends_with(
                path@,
                model_filename(self.data().settings.transcription.local_model_size),
            ),
    {
        self.get_default_local_model_path_for_size(
            self.data.settings.transcription.local_model_size.as_str(),
        )
    }

    /// The path of the file that records the activation: a path that ends
    /// with the name of that file. There is none before the data directory
    /// is known.
    pub fn license_path(&self) -> (r: Result<String, String>)
        ensures
            r is Ok <==> self.app_data_dir() is Some,
            r matches Ok(path) ==> ends_with(path@, license_file()),
            r is Err ==> r->Err_0@ == "App not initialized"@,
    {
        match &self.app_data_dir {
            Some(dir) => {
                proof {
                    lemma_fixed_names_are_plain();
                }
                Ok(join_path(dir.as_str(), "license.json"))
            },
            None => Err("App not initialized".to_string()),
        }
    }
}

/// `SystemTime::elapsed` on the Unix epoch: the time that the clock shows,
/// as milliseconds since the epoch, and zero for a clock that stands before
/// the epoch. Nothing is claimed of the value.
#[verifier::external_body]
pub(crate) fn now_millis() -> (millis: u128) {
    std::time::UNIX_EPOCH.elapsed().unwrap_or_default().as_millis()
}

/// `Path::join`: the path `child` adjoined to `base`. Only an absolute
/// child, or on Windows one with a root or a prefix, replaces any of
/// `base`; any other child is put behind `base`, after a separator where
/// one is needed. So on every platform the text of the joined path ends
/// with a child that is a plain name. What stands before it is the
/// platform's matter and nothing is claimed of it.
#[verifier::external_body]
pub(crate) fn join_path(base: &str, child: &str) -> (joined: String)
    ensures
        is_plain_name(child@) ==> ends_with(joined@, child@),
{
    std::path::Path::new(base).join(child).to_string_lossy().into_owned()
}

/// The identifier of a dictionary entry made at `millis` milliseconds since
/// the epoch.
pub fn make_entry_id(millis: u128) -> (id: String)
    ensures
        id@ == entry_id(millis),
{
    let mut id = "dict_".to_string();
    push_decimal(&mut id, millis);
    id
}

/// After a dictation the history ends with that dictation and holds at
/// most `HISTORY_LIMIT` entries, however many it held before; and what it
/// holds are the newest entries, in their order.
pub proof fn lemma_history_bounded(history: Seq<HistoryEntryView>, entry: HistoryEntryView)
    ensures
        history_after(history, entry).len() <= HISTORY_LIMIT,
        history_after(history, entry).len() > 0,
        history_after(history, entry).last() == entry,
        history.len() < HISTORY_LIMIT ==> history_after(history, entry) == history.push(entry),
        forall|k: int|
            0 <= k < history_after(history, entry).len() ==> history_after(history, entry)[k]
                == history.push(entry)[history.len() + 1 - history_after(history, entry).len() + k],
{
}

/// An entry that was added is found by its identifier where no older entry
/// has the same one, and removing by that identifier gives back the
/// dictionary as it was.
pub proof fn lemma_add_then_remove(entries: Seq<DictionaryEntryView>, entry: DictionaryEntryView)
    requires
        forall|k: int| 0 <= k < entries.len() ==> entries[k].id != entry.id,
    ensures
        position_of(entries.push(entry), entry.id) == entries.len(),
        without(entries.push(entry), entry.id) == entries,
{
    let all = entries.push(entry);
    lemma_position_of(all, entry.id, entries.len() as int);
    assert(all.drop_last() =~= entries);
    lemma_keeps_all(entries, entry.id);
    reveal_with_fuel(Seq::filter, 2);
}

proof fn lemma_keeps_all(entries: Seq<DictionaryEntryView>, id: Seq<char>)
    requires
        forall|k: int| 0 <= k < entries.len() ==> entries[k].id != id,
    ensures
        entries.filter(other_than(id)) == entries,
    decreases entries.len(),
{
    reveal_with_fuel(Seq::filter, 2);
    if entries.len() > 0 {
        lemma_keeps_all(entries.drop_last(), id);
        assert(entries.drop_last().push(entries.last()) =~= entries);
    }
}

} // verus!
