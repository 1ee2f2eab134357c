//! What the provisioning of a deployment computes: the settings file, the
//! entries that go into the configuration stores, and what is read out of
//! the deployment tool's output.

use vstd::prelude::*;
use crate::text::{
    chars_of, contains_text, drop_white_space, find_char, first_index, has_prefix, has_substring,
    is_white_space, split, split_on, starts_with, texts_view, trim, trimmed,
};

verus! {

/// The mathematical model of settings: the assignments made, in order. Of
/// two assignments to one key the later one counts.
pub type Assignments = Seq<(Seq<char>, Seq<char>)>;

/// The value that `key` has after `assignments`.
pub open spec fn assigned(assignments: Assignments, key: Seq<char>) -> Option<Seq<char>>
    decreases assignments.len(),
{
    if assignments.len() == 0 {
        None
    } else if assignments.last().0 == key {
        Some(assignments.last().1)
    } else {
        assigned(assignments.drop_last(), key)
    }
}

/// The value that `key` has after `assignments`, or `fallback` where it has
/// none.
pub open spec fn assigned_or(assignments: Assignments, key: Seq<char>, fallback: Seq<char>) -> Seq<
    char,
> {
    match assigned(assignments, key) {
        Some(value) => value,
        None => fallback,
    }
}

/// The encoding parameters of a fresh deployment.
pub open spec fn default_assignments() -> Assignments {
    seq![
        ("FMP4_AAC_PROFILE"@, "AAC-LC"@),
        ("FMP4_SAMPLE_RATE"@, "44100"@),
        ("FMP4_CHANNELS"@, "2"@),
        ("FMP4_TRACK_ID"@, "1"@),
    ]
}

/// What one line of a settings file assigns: nothing for an empty line, a
/// comment, a line without `=` or a line without a value; else the text
/// before the first `=` and the text after it, each trimmed.
pub open spec fn line_assignment(line: Seq<char>) -> Option<(Seq<char>, Seq<char>)> {
    let text = trimmed(line);
    if text.len() == 0 || text[0] == '#' {
        None
    } else {
        match first_index(text, '=') {
            None => None,
            Some(at) => {
                let value = trimmed(text.subrange(at + 1, text.len() as int));
                if value.len() == 0 {
                    None
                } else {
                    Some((trimmed(text.subrange(0, at)), value))
                }
            },
        }
    }
}

/// The assignments of `lines`, in order.
pub open spec fn assignments_of(lines: Seq<Seq<char>>) -> Assignments
    decreases lines.len(),
{
    if lines.len() == 0 {
        Seq::empty()
    } else {
        match line_assignment(lines.last()) {
            Some(assignment) => assignments_of(lines.drop_last()).push(assignment),
            None => assignments_of(lines.drop_last()),
        }
    }
}

/// The settings that a settings file with the text `content` gives: the
/// defaults, then what its lines assign.
pub open spec fn loaded(content: Seq<char>) -> Assignments {
    default_assignments() + assignments_of(split_on(content, '\n'))
}

/// The text of the settings file for `assignments`.
pub open spec fn rendered(assignments: Assignments) -> Seq<char> {
    "# StegaWave Configuration\n# This file contains default values for KV store entries.\n# Edit these values as needed for your deployment.\n\n# === Audio Encoding Configuration ===\n# These values control how audio segments are processed for watermarking\n\n# AAC Profile to use for encoding (typically AAC-LC)\nFMP4_AAC_PROFILE="@
        + assigned_or(assignments, "FMP4_AAC_PROFILE"@, "AAC-LC"@)
        + "\n\n# Sample rate in Hz (44100 is standard CD quality)\nFMP4_SAMPLE_RATE="@
        + assigned_or(assignments, "FMP4_SAMPLE_RATE"@, "44100"@)
        + "\n\n# Number of audio channels (2 for stereo)\nFMP4_CHANNELS="@ + assigned_or(
        assignments,
        "FMP4_CHANNELS"@,
        "2"@,
    ) + "\n\n# Track ID for the audio track in the FMP4 container\nFMP4_TRACK_ID="@ + assigned_or(
        assignments,
        "FMP4_TRACK_ID"@,
        "1"@,
    )
        + "\n\n# === Service Configuration ===\n# These values are automatically populated during setup but can be updated\n\n# Your StegaWave API key (will be set during setup)\nSTEGAWAVE_API_KEY="@
        + assigned_or(assignments, "STEGAWAVE_API_KEY"@, ""@)
        + "\n\n# Fastly API token (will be set during setup)\nFASTLY_API_TOKEN="@ + assigned_or(
        assignments,
        "FASTLY_API_TOKEN"@,
        ""@,
    )
        + "\n\n# === Advanced Configuration ===\n# These values typically don't need to be changed\n\n# Watermarking probability (0.01 = 1% chance)\nWATERMARK_PROBABILITY="@
        + assigned_or(assignments, "WATERMARK_PROBABILITY"@, "0.01"@) + "\n"@
}

/// One assignment of a value to a key.
#[derive(Clone, Debug, PartialEq, Eq)]
pub struct Setting {
    pub key: String,
    pub value: String,
}

impl View for Setting {
    type V = (Seq<char>, Seq<char>);

    open spec fn view(&self) -> (Seq<char>, Seq<char>) {
        (self.key@, self.value@)
    }
}

/// The settings of a deployment.
#[derive(Clone, Debug, PartialEq, Eq)]
pub struct Settings {
    assignments: Vec<Setting>,
}

impl View for Settings {
    type V = Assignments;

    closed spec fn view(&self) -> Assignments {
        Seq::new(self.assignments@.len(), |i: int| self.assignments@[i]@)
    }
}

impl Settings {
    /// Settings without any assignment.
    pub fn new() -> (out: Self)
        ensures
            out@ == Assignments::empty(),
    {
        let out = Settings { assignments: Vec::new() };
        assert(out@ =~= Assignments::empty());
        out
    }

    /// The encoding parameters of a fresh deployment.
    pub fn defaults() -> (out: Self)
        ensures
            out@ == default_assignments(),
    {
        let mut out = Settings::new();
        out.set("FMP4_AAC_PROFILE", "AAC-LC");
        out.set("FMP4_SAMPLE_RATE", "44100");
        out.set("FMP4_CHANNELS", "2");
        out.set("FMP4_TRACK_ID", "1");
        assert(out@ =~= default_assignments());
        out
    }

    /// Assigns `value` to `key`.
    pub fn set(&mut self, key: &str, value: &str)
        ensures
            final(self)@ == old(self)@.push((key@, value@)),
    {
        self.assignments.push(Setting { key: key.to_owned(), value: value.to_owned() });
        assert(self@ =~= old(self)@.push((key@, value@)));
    }

    /// The value of `key`, if one was assigned.
    pub fn get(&self, key: &str) -> (value: Option<String>)
        ensures
            value is Some == assigned(self@, key@) is Some,
            value matches Some(v) ==> assigned(self@, key@) == Some(v@),
    {
        let wanted = key.to_owned();
        let mut i: usize = self.assignments.len();
        assert(self@.subrange(0, i as int) =~= self@);
        while i > 0
            invariant
                i <= self.assignments.len(),
                wanted@ == key@,
                assigned(self@, key@) == assigned(self@.subrange(0, i as int), key@),
            decreases i,
        {
            proof {
                let upto = self@.subrange(0, i as int);
                assert(upto.last() == self.assignments@[i - 1]@);
                assert(upto.drop_last() =~= self@.subrange(0, i - 1));
            }
            i -= 1;
            if self.assignments[i].key == wanted {
                return Some(self.assignments[i].value.clone());
            }
        }
        None
    }

    /// The value of `key`, or `fallback` where none was assigned.
    pub fn get_or(&self, key: &str, fallback: &str) -> (value: String)
        ensures
            value@ == assigned_or(self@, key@, fallback@),
    {
        match self.get(key) {
            Some(value) => value,
            None => fallback.to_owned(),
        }
    }

    /// Applies one line of a settings file.
    pub fn apply_line(&mut self, line: &str)
        ensures
            final(self)@ == match line_assignment(line@) {
                Some(assignment) => old(self)@.push(assignment),
                None => old(self)@,
            },
    {
        let text = trim(line);
        let chars = chars_of(text.as_str());
        if chars.len() == 0 || chars[0] == '#' {
            return ;
        }
        assert(chars@.subrange(0, chars@.len() as int) =~= chars@);
        match find_char(&chars, 0, '=') {
            None => {},
            Some(at) => {
                let value = trim(text.as_str().substring_char(at + 1, chars.len()));
                if value.as_str().unicode_len() > 0 {
                    let key = trim(text.as_str().substring_char(0, at));
                    self.set(key.as_str(), value.as_str());
                }
            },
        }
    }

    /// Reads the settings out of the text of a settings file: the defaults,
    /// unless the file assigns otherwise.
    pub fn load(content: &str) -> (out: Self)
        ensures
            out@ == loaded(content@),
    {
        let mut out = Settings::defaults();
        let lines = split(content, '\n');
        let ghost all = texts_view(lines@);
        let mut i: usize = 0;
        assert(out@ =~= default_assignments() + assignments_of(all.subrange(0, 0)));
        while i < lines.len()
            invariant
                i <= lines.len(),
                all == texts_view(lines@),
                out@ == default_assignments() + assignments_of(all.subrange(0, i as int)),
            decreases lines.len() - i,
        {
            let ghost before = out@;
            proof {
                let upto = all.subrange(0, i + 1);
                assert(upto.last() == lines@[i as int]@);
                assert(upto.drop_last() =~= all.subrange(0, i as int));
            }
            out.apply_line(lines[i].as_str());
            proof {
                let done = assignments_of(all.subrange(0, i as int));
                match line_assignment(lines@[i as int]@) {
                    Some(assignment) => {
                        assert(before.push(assignment) =~= default_assignments() + done.push(
                            assignment,
                        ));
                    },
                    None => {},
                }
            }
            i += 1;
        }
        assert(all.subrange(0, i as int) =~= all);
        out
    }

    /// The text of the settings file for these settings.
    pub fn render(&self) -> (out: String)
        ensures
            out@ == rendered(self@),
    {
        let mut out =
            "# StegaWave Configuration\n# This file contains default values for KV store entries.\n# Edit these values as needed for your deployment.\n\n# === Audio Encoding Configuration ===\n# These values control how audio segments are processed for watermarking\n\n# AAC Profile to use for encoding (typically AAC-LC)\nFMP4_AAC_PROFILE=".to_owned();
        out.append(self.get_or("FMP4_AAC_PROFILE", "AAC-LC").as_str());
        out.append("\n\n# Sample rate in Hz (44100 is standard CD quality)\nFMP4_SAMPLE_RATE=");
        out.append(self.get_or("FMP4_SAMPLE_RATE", "44100").as_str());
        out.append("\n\n# Number of audio channels (2 for stereo)\nFMP4_CHANNELS=");
        out.append(self.get_or("FMP4_CHANNELS", "2").as_str());
        out.append("\n\n# Track ID for the audio track in the FMP4 container\nFMP4_TRACK_ID=");
        out.append(self.get_or("FMP4_TRACK_ID", "1").as_str());
        out.append(
            "\n\n# === Service Configuration ===\n# These values are automatically populated during setup but can be updated\n\n# Your StegaWave API key (will be set during setup)\nSTEGAWAVE_API_KEY=",
        );
        out.append(self.get_or("STEGAWAVE_API_KEY", "").as_str());
        out.append("\n\n# Fastly API token (will be set during setup)\nFASTLY_API_TOKEN=");
        out.append(self.get_or("FASTLY_API_TOKEN", "").as_str());
        out.append(
            "\n\n# === Advanced Configuration ===\n# These values typically don't need to be changed\n\n# Watermarking probability (0.01 = 1% chance)\nWATERMARK_PROBABILITY=",
        );
        out.append(self.get_or("WATERMARK_PROBABILITY", "0.01").as_str());
        out.append("\n");
        out
    }
}

/// The four encoding parameters, in the order in which they are updated.
pub open spec fn encoding_keys() -> Seq<Seq<char>> {
    seq!["FMP4_AAC_PROFILE"@, "FMP4_SAMPLE_RATE"@, "FMP4_CHANNELS"@, "FMP4_TRACK_ID"@]
}

/// `key` names an encoding parameter.
pub open spec fn is_encoding_key(key: Seq<char>) -> bool {
    key == "FMP4_AAC_PROFILE"@ || key == "FMP4_SAMPLE_RATE"@ || key == "FMP4_CHANNELS"@ || key
        == "FMP4_TRACK_ID"@
}

/// Each of `pieces`, trimmed.
pub open spec fn each_trimmed(pieces: Seq<Seq<char>>) -> Seq<Seq<char>> {
    Seq::new(pieces.len(), |i: int| trimmed(pieces[i]))
}

/// The keys that an update covers: those listed, separated by commas, or
/// the encoding parameters where none are listed.
pub open spec fn requested_keys(listed: Option<Seq<char>>) -> Seq<Seq<char>> {
    match listed {
        Some(keys) => each_trimmed(split_on(keys, ',')),
        None => encoding_keys(),
    }
}

/// One entry of a configuration store.
#[derive(Clone, Debug, PartialEq, Eq)]
pub struct StoreEntry {
    pub store: String,
    pub key: String,
    pub value: String,
}

/// The mathematical model of `StoreEntry`.
pub struct EntryView {
    pub store: Seq<char>,
    pub key: Seq<char>,
    pub value: Seq<char>,
}

impl View for StoreEntry {
    type V = EntryView;

    open spec fn view(&self) -> EntryView {
        EntryView { store: self.store@, key: self.key@, value: self.value@ }
    }
}

/// What an update does for one key.
#[derive(Clone, Debug, PartialEq, Eq)]
pub enum UpdateStep {
    /// The entry is written.
    Write(StoreEntry),
    /// The key has a value but no store: it is reported and left alone.
    Unknown(String),
}

/// The mathematical model of `UpdateStep`.
pub enum StepView {
    Write(EntryView),
    Unknown(Seq<char>),
}

impl View for UpdateStep {
    type V = StepView;

    open spec fn view(&self) -> StepView {
        match *self {
            UpdateStep::Write(entry) => StepView::Write(entry@),
            UpdateStep::Unknown(key) => StepView::Unknown(key@),
        }
    }
}

/// The views of `steps`, in order.
pub open spec fn steps_view(steps: Seq<UpdateStep>) -> Seq<StepView> {
    Seq::new(steps.len(), |i: int| steps[i]@)
}

/// The views of `entries`, in order.
pub open spec fn entries_view(entries: Seq<StoreEntry>) -> Seq<EntryView> {
    Seq::new(entries.len(), |i: int| entries[i]@)
}

/// What an update does for `key`: nothing where the settings have no value
/// for it; an encoding parameter goes to the encoding store under its own
/// name, the API key to the key store under `service_api_key`.
pub open spec fn step_for(assignments: Assignments, key: Seq<char>) -> Option<StepView> {
    match assigned(assignments, key) {
        None => None,
        Some(value) => if is_encoding_key(key) {
            Some(StepView::Write(EntryView { store: "watermarking_config"@, key, value }))
        } else if key == "STEGAWAVE_API_KEY"@ {
            Some(
                StepView::Write(
                    EntryView { store: "api_keys"@, key: "service_api_key"@, value },
                ),
            )
        } else {
            Some(StepView::Unknown(key))
        },
    }
}

/// The steps of an update over `keys`, in their order.
pub open spec fn steps_for(assignments: Assignments, keys: Seq<Seq<char>>) -> Seq<StepView>
    decreases keys.len(),
{
    if keys.len() == 0 {
        Seq::empty()
    } else {
        match step_for(assignments, keys.last()) {
            Some(step) => steps_for(assignments, keys.drop_last()).push(step),
            None => steps_for(assignments, keys.drop_last()),
        }
    }
}

/// The entries that an installation writes: the master secret, the API key,
/// and the four encoding parameters with their defaults where the settings
/// have none.
pub open spec fn installed(assignments: Assignments, secret: Seq<char>, api_key: Seq<char>) -> Seq<
    EntryView,
> {
    seq![
        EntryView { store: "secrets"@, key: "SECRET_KEY_HEX"@, value: secret },
        EntryView { store: "api_keys"@, key: "service_api_key"@, value: api_key },
        EntryView {
            store: "watermarking_config"@,
            key: "FMP4_AAC_PROFILE"@,
            value: assigned_or(assignments, "FMP4_AAC_PROFILE"@, "AAC-LC"@),
        },
        EntryView {
            store: "watermarking_config"@,
            key: "FMP4_SAMPLE_RATE"@,
            value: assigned_or(assignments, "FMP4_SAMPLE_RATE"@, "44100"@),
        },
        EntryView {
            store: "watermarking_config"@,
            key: "FMP4_CHANNELS"@,
            value: assigned_or(assignments, "FMP4_CHANNELS"@, "2"@),
        },
        EntryView {
            store: "watermarking_config"@,
            key: "FMP4_TRACK_ID"@,
            value: assigned_or(assignments, "FMP4_TRACK_ID"@, "1"@),
        },
    ]
}

/// Whether `key` names an encoding parameter.
pub fn names_encoding(key: &str) -> (b: bool)
    ensures
        b == is_encoding_key(key@),
{
    let key = key.to_owned();
    key == "FMP4_AAC_PROFILE".to_owned() || key == "FMP4_SAMPLE_RATE".to_owned() || key
        == "FMP4_CHANNELS".to_owned() || key == "FMP4_TRACK_ID".to_owned()
}

/// The keys that an update covers.
pub fn keys_to_update(listed: &Option<String>) -> (keys: Vec<String>)
    ensures
        texts_view(keys@) == requested_keys(
            match *listed {
                Some(l) => Some(l@),
                None => None,
            },
        ),
{
    match listed {
        None => {
            let mut keys: Vec<String> = Vec::new();
            keys.push("FMP4_AAC_PROFILE".to_owned());
            keys.push("FMP4_SAMPLE_RATE".to_owned());
            keys.push("FMP4_CHANNELS".to_owned());
            keys.push("FMP4_TRACK_ID".to_owned());
            assert(texts_view(keys@) =~= encoding_keys());
            keys
        },
        Some(list) => {
            let pieces = split(list.as_str(), ',');
            let mut keys: Vec<String> = Vec::new();
            let mut i: usize = 0;
            while i < pieces.len()
                invariant
                    i <= pieces.len(),
                    keys@.len() == i,
                    forall|j: int| 0 <= j < i ==> keys@[j]@ == trimmed(pieces@[j]@),
                decreases pieces.len() - i,
            {
                keys.push(trim(pieces[i].as_str()));
                i += 1;
            }
            assert(texts_view(keys@) =~= each_trimmed(texts_view(pieces@)));
            keys
        },
    }
}

/// What an update does for `key`.
pub fn plan_step(settings: &Settings, key: &str) -> (step: Option<UpdateStep>)
    ensures
        step is Some == step_for(settings@, key@) is Some,
        step matches Some(s) ==> step_for(settings@, key@) == Some(s@),
{
    match settings.get(key) {
        None => None,
        Some(value) => {
            if names_encoding(key) {
                Some(
                    UpdateStep::Write(
                        StoreEntry {
                            store: "watermarking_config".to_owned(),
                            key: key.to_owned(),
                            value,
                        },
                    ),
                )
            } else if key.to_owned() == "STEGAWAVE_API_KEY".to_owned() {
                Some(
                    UpdateStep::Write(
                        StoreEntry {
                            store: "api_keys".to_owned(),
                            key: "service_api_key".to_owned(),
                            value,
                        },
                    ),
                )
            } else {
                Some(UpdateStep::Unknown(key.to_owned()))
            }
        },
    }
}

/// The steps of an update of the keys `listed`, or of the encoding
/// parameters where none are listed.
pub fn plan_update(settings: &Settings, listed: &Option<String>) -> (steps: Vec<UpdateStep>)
    ensures
        steps_view(steps@) == steps_for(
            settings@,
            requested_keys(
                match *listed {
                    Some(l) => Some(l@),
                    None => None,
                },
            ),
        ),
{
    let keys = keys_to_update(listed);
    let ghost all = texts_view(keys@);
    let mut steps: Vec<UpdateStep> = Vec::new();
    let mut i: usize = 0;
    assert(steps_view(steps@) =~= steps_for(settings@, all.subrange(0, 0)));
    while i < keys.len()
        invariant
            i <= keys.len(),
            all == texts_view(keys@),
            steps_view(steps@) == steps_for(settings@, all.subrange(0, i as int)),
        decreases keys.len() - i,
    {
        let ghost done = steps_view(steps@);
        proof {
            let upto = all.subrange(0, i + 1);
            assert(upto.last() == keys@[i as int]@);
            assert(upto.drop_last() =~= all.subrange(0, i as int));
        }
        match plan_step(settings, keys[i].as_str()) {
            Some(step) => {
                steps.push(step);
                assert(steps_view(steps@) =~= done.push(step@));
            },
            None => {},
        }
        i += 1;
    }
    assert(all.subrange(0, i as int) =~= all);
    steps
}

/// The entries that an installation writes into the stores.
pub fn install_entries(settings: &Settings, secret: &str, api_key: &str) -> (entries: Vec<
    StoreEntry,
>)
    ensures
        entries_view(entries@) == installed(settings@, secret@, api_key@),
{
    let mut entries: Vec<StoreEntry> = Vec::new();
    entries.push(
        StoreEntry {
            store: "secrets".to_owned(),
            key: "SECRET_KEY_HEX".to_owned(),
            value: secret.to_owned(),
        },
    );
    entries.push(
        StoreEntry {
            store: "api_keys".to_owned(),
            key: "service_api_key".to_owned(),
            value: api_key.to_owned(),
        },
    );
    entries.push(
        StoreEntry {
            store: "watermarking_config".to_owned(),
            key: "FMP4_AAC_PROFILE".to_owned(),
            value: settings.get_or("FMP4_AAC_PROFILE", "AAC-LC"),
        },
    );
    entries.push(
        StoreEntry {
            store: "watermarking_config".to_owned(),
            key: "FMP4_SAMPLE_RATE".to_owned(),
            value: settings.get_or("FMP4_SAMPLE_RATE", "44100"),
        },
    );
    entries.push(
        StoreEntry {
            store: "watermarking_config".to_owned(),
            key: "FMP4_CHANNELS".to_owned(),
            value: settings.get_or("FMP4_CHANNELS", "2"),
        },
    );
    entries.push(
        StoreEntry {
            store: "watermarking_config".to_owned(),
            key: "FMP4_TRACK_ID".to_owned(),
            value: settings.get_or("FMP4_TRACK_ID", "1"),
        },
    );
    assert(entries_view(entries@) =~= installed(settings@, secret@, api_key@));
    entries
}

/// The value of an entry as it may be shown: a value whose key holds
/// `SECRET` is never shown.
pub open spec fn shown(key: Seq<char>, value: Seq<char>) -> Seq<char> {
    if has_substring(key, "SECRET"@) {
        "[REDACTED]"@
    } else {
        value
    }
}

/// The value of an entry as it may be shown.
pub fn shown_value(key: &str, value: &str) -> (out: String)
    ensures
        out@ == shown(key@, value@),
{
    if contains_text(key, "SECRET") {
        "[REDACTED]".to_owned()
    } else {
        value.to_owned()
    }
}

/// How the creation of a store ended.
#[derive(Clone, Copy, Debug, PartialEq, Eq, Structural)]
pub enum Creation {
    /// The store was created.
    Created,
    /// The store was there before, which is as good.
    AlreadyExists,
    /// The store could not be created.
    Failed,
}

/// How the creation of a store ended, given whether the tool reported
/// success and what it printed.
pub open spec fn creation(succeeded: bool, stdout: Seq<char>, stderr: Seq<char>) -> Creation {
    if succeeded {
        Creation::Created
    } else if has_substring(stderr, "already exists"@) || has_substring(
        stdout,
        "already exists"@,
    ) {
        Creation::AlreadyExists
    } else {
        Creation::Failed
    }
}

/// Judges the creation of a store by the tool's result and output.
pub fn creation_outcome(succeeded: bool, stdout: &str, stderr: &str) -> (out: Creation)
    ensures
        out == creation(succeeded, stdout@, stderr@),
{
    if succeeded {
        Creation::Created
    } else if contains_text(stderr, "already exists") || contains_text(stdout, "already exists") {
        Creation::AlreadyExists
    } else {
        Creation::Failed
    }
}

/// The first of `lines` that starts with `prefix`.
pub open spec fn first_starting_with(lines: Seq<Seq<char>>, prefix: Seq<char>) -> Option<
    Seq<char>,
>
    decreases lines.len(),
{
    if lines.len() == 0 {
        None
    } else if has_prefix(lines[0], prefix) {
        Some(lines[0])
    } else {
        first_starting_with(lines.drop_first(), prefix)
    }
}

/// The characters at the end of `text` up to the last white space.
pub open spec fn trailing_word(text: Seq<char>) -> Seq<char>
    decreases text.len(),
{
    if text.len() == 0 || is_white_space(text.last()) {
        Seq::empty()
    } else {
        trailing_word(text.drop_last()).push(text.last())
    }
}

/// The last word of `text`, words being separated by white space.
pub open spec fn last_word(text: Seq<char>) -> Option<Seq<char>> {
    let word = trailing_word(drop_white_space(text));
    if word.len() == 0 {
        None
    } else {
        Some(word)
    }
}

/// The domain that the description of a service names: the last word of
/// its first line that starts with `Domain:`, or `N/A`.
pub open spec fn domain_of(described: Seq<char>) -> Seq<char> {
    let line = match first_starting_with(split_on(described, '\n'), "Domain:"@) {
        Some(line) => line,
        None => Seq::empty(),
    };
    match last_word(line) {
        Some(word) => word,
        None => "N/A"@,
    }
}

/// The first of `lines` that starts with `prefix`.
pub fn find_line(lines: &Vec<String>, prefix: &str) -> (line: Option<String>)
    ensures
        line is Some == first_starting_with(texts_view(lines@), prefix@) is Some,
        line matches Some(l) ==> first_starting_with(texts_view(lines@), prefix@) == Some(l@),
{
    let wanted = chars_of(prefix);
    let ghost all = texts_view(lines@);
    let mut i: usize = 0;
    assert(all.subrange(0, all.len() as int) =~= all);
    while i < lines.len()
        invariant
            i <= lines.len(),
            wanted@ == prefix@,
            all == texts_view(lines@),
            first_starting_with(all, prefix@) == first_starting_with(
                all.subrange(i as int, all.len() as int),
                prefix@,
            ),
        decreases lines.len() - i,
    {
        proof {
            let rest = all.subrange(i as int, all.len() as int);
            assert(rest[0] == lines@[i as int]@);
            assert(rest.drop_first() =~= all.subrange(i + 1, all.len() as int));
        }
        let chars = chars_of(lines[i].as_str());
        if starts_with(&chars, &wanted) {
            return Some(lines[i].clone());
        }
        i += 1;
    }
    None
}

/// The last word of `text`, words being separated by white space.
pub fn final_word(text: &str) -> (word: Option<String>)
    ensures
        word is Some == last_word(text@) is Some,
        word matches Some(w) ==> last_word(text@) == Some(w@),
{
    let chars = chars_of(text);
    let n: usize = chars.len();
    let mut end: usize = n;
    assert(chars@.subrange(0, n as int) =~= chars@);
    while end > 0 && chars[end - 1].is_whitespace()
        invariant
            n == chars@.len(),
            end <= n,
            drop_white_space(chars@) == drop_white_space(chars@.subrange(0, end as int)),
        decreases end,
    {
        proof {
            let part = chars@.subrange(0, end as int);
            assert(part.last() == chars@[end - 1]);
            assert(part.drop_last() =~= chars@.subrange(0, end - 1));
        }
        end -= 1;
    }
    let ghost body = chars@.subrange(0, end as int);
    assert(drop_white_space(chars@) == body) by {
        if end > 0 {
            assert(body.last() == chars@[end - 1]);
        }
    }
    let mut start: usize = end;
    assert(chars@.subrange(end as int, end as int) =~= Seq::<char>::empty());
    assert(trailing_word(body) + Seq::<char>::empty() =~= trailing_word(body));
    while start > 0 && !chars[start - 1].is_whitespace()
        invariant
            n == chars@.len(),
            start <= end <= n,
            body == chars@.subrange(0, end as int),
            trailing_word(body) == trailing_word(chars@.subrange(0, start as int))
                + chars@.subrange(start as int, end as int),
        decreases start,
    {
        proof {
            let part = chars@.subrange(0, start as int);
            assert(part.last() == chars@[start - 1]);
            assert(part.drop_last() =~= chars@.subrange(0, start - 1));
            assert(trailing_word(part.drop_last()).push(part.last()) + chars@.subrange(
                start as int,
                end as int,
            ) =~= trailing_word(part.drop_last()) + chars@.subrange(start - 1, end as int));
        }
        start -= 1;
    }
    proof {
        let part = chars@.subrange(0, start as int);
        if start > 0 {
            assert(part.last() == chars@[start - 1]);
        }
        assert(trailing_word(part) =~= Seq::<char>::empty());
        assert(trailing_word(body) =~= chars@.subrange(start as int, end as int));
    }
    if start == end {
        None
    } else {
        Some(text.substring_char(start, end).to_owned())
    }
}

/// Reads the domain of a service out of the tool's description of it.
pub fn service_domain(described: &str) -> (domain: String)
    ensures
        domain@ == domain_of(described@),
{
    let lines = split(described, '\n');
    let line = match find_line(&lines, "Domain:") {
        Some(line) => line,
        None => String::new(),
    };
    match final_word(line.as_str()) {
        Some(word) => word,
        None => "N/A".to_owned(),
    }
}

} // verus!
