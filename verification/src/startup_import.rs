use vstd::prelude::*;
use crate::text::same_text;
use crate::scheme::{parse_link, parsed_link};

verus! {

// ---------------------------------------------------------------------------
// Blank entries
// ---------------------------------------------------------------------------

/// The Unicode `White_Space` property, which `char::is_whitespace` tests and
/// `str::trim` removes: tab to carriage return, space, next line, no-break
/// space, ogham space mark, the spaces from en quad to hair space, line and
/// paragraph separators, narrow no-break space, medium mathematical space and
/// ideographic space.
pub open spec fn white_space(c: char) -> bool {
    let u = c as u32;
    ||| 0x9 <= u <= 0xD
    ||| u == 0x20
    ||| u == 0x85
    ||| u == 0xA0
    ||| u == 0x1680
    ||| 0x2000 <= u <= 0x200A
    ||| u == 0x2028
    ||| u == 0x2029
    ||| u == 0x202F
    ||| u == 0x205F
    ||| u == 0x3000
}

/// Whether a character is white space.
pub fn is_white_space(c: char) -> (r: bool)
    ensures
        r == white_space(c),
{
    let u = c as u32;
    (0x9 <= u && u <= 0xD) || u == 0x20 || u == 0x85 || u == 0xA0 || u == 0x1680 || (0x2000 <= u
        && u <= 0x200A) || u == 0x2028 || u == 0x2029 || u == 0x202F || u == 0x205F || u == 0x3000
}

/// A text that trimming leaves empty: every character is white space.
pub open spec fn is_blank_text(s: Seq<char>) -> bool {
    forall|i: int| 0 <= i < s.len() ==> white_space(#[trigger] s[i])
}

/// Whether the text is empty once trimmed.
pub fn is_blank(s: &str) -> (r: bool)
    ensures
        r == is_blank_text(s@),
{
    let n = s.unicode_len();
    let mut i: usize = 0;
    while i < n
        invariant
            n == s@.len(),
            i <= n,
            forall|j: int| 0 <= j < i ==> white_space(#[trigger] s@[j]),
        decreases n - i,
    {
        if !is_white_space(s.get_char(i)) {
            return false;
        }
        i = i + 1;
    }
    true
}

// ---------------------------------------------------------------------------
// Importing one subscription
// ---------------------------------------------------------------------------

/// The two fields of a stored profile that importing looks at.
#[derive(Debug, Clone, PartialEq, Eq)]
pub struct ProfileEntry {
    pub url: Option<String>,
    pub uid: Option<String>,
}

pub open spec fn opt_view(o: Option<String>) -> Option<Seq<char>> {
    match o {
        Some(t) => Some(t@),
        None => None,
    }
}

pub open spec fn entries_view(items: Seq<ProfileEntry>) -> Seq<(Option<Seq<char>>, Option<Seq<char>>)> {
    items.map_values(|e: ProfileEntry| (opt_view(e.url), opt_view(e.uid)))
}

/// The uid of the first stored profile that has this URL and a uid.
pub open spec fn existing_uid(items: Seq<(Option<Seq<char>>, Option<Seq<char>>)>, url: Seq<char>) -> Option<
    Seq<char>,
>
    decreases items.len(),
{
    if items.len() == 0 {
        None
    } else if items[0].0 == Some(url) && items[0].1 is Some {
        items[0].1
    } else {
        existing_uid(items.drop_first(), url)
    }
}

/// A stored entry that has this URL and a uid.
pub open spec fn has_uid_for(e: (Option<Seq<char>>, Option<Seq<char>>), url: Seq<char>) -> bool {
    e.0 == Some(url) && e.1 is Some
}

/// The reused uid is that of the first stored entry with this URL and a uid,
/// whichever position it has; there is none exactly when no entry has both.
pub proof fn lemma_existing_uid_is_first_match(
    items: Seq<(Option<Seq<char>>, Option<Seq<char>>)>,
    url: Seq<char>,
)
    ensures
        forall|i: int|
            0 <= i < items.len() && has_uid_for(#[trigger] items[i], url) && (forall|j: int|
                0 <= j < i ==> !has_uid_for(items[j], url)) ==> existing_uid(items, url)
                == items[i].1,
        existing_uid(items, url) is None <==> forall|i: int|
            0 <= i < items.len() ==> !has_uid_for(#[trigger] items[i], url),
    decreases items.len(),
{
    if items.len() > 0 {
        let rest = items.drop_first();
        lemma_existing_uid_is_first_match(rest, url);
        assert forall|i: int|
            0 <= i < items.len() && has_uid_for(#[trigger] items[i], url) && (forall|j: int|
                0 <= j < i ==> !has_uid_for(items[j], url)) implies existing_uid(items, url)
            == items[i].1 by {
            if i > 0 {
                assert(!has_uid_for(items[0], url));
                assert(rest[i - 1] == items[i]);
                assert forall|j: int| 0 <= j < i - 1 implies !has_uid_for(rest[j], url) by {
                    assert(rest[j] == items[j + 1]);
                }
            }
        }
        if existing_uid(items, url) is None {
            assert(!has_uid_for(items[0], url));
            assert forall|i: int| 0 <= i < items.len() implies !has_uid_for(#[trigger] items[i], url) by {
                if i > 0 {
                    assert(rest[i - 1] == items[i]);
                }
            }
        } else {
            if !has_uid_for(items[0], url) {
                let k = choose|k: int| 0 <= k < rest.len() && has_uid_for(#[trigger] rest[k], url);
                assert(rest[k] == items[k + 1]);
            }
        }
    }
}

/// Looks for a stored profile imported from the same URL, so that a URL is
/// never imported twice: its uid is returned in place of a new import.
pub fn find_existing_uid(items: &Vec<ProfileEntry>, url: &str) -> (r: Option<String>)
    ensures
        opt_view(r) == existing_uid(entries_view(items@), url@),
        forall|i: int|
            0 <= i < items@.len() && has_uid_for(#[trigger] entries_view(items@)[i], url@) && (
            forall|j: int| 0 <= j < i ==> !has_uid_for(entries_view(items@)[j], url@)) ==> opt_view(r)
                == entries_view(items@)[i].1,
        r is None <==> forall|i: int|
            0 <= i < items@.len() ==> !has_uid_for(#[trigger] entries_view(items@)[i], url@),
{
    proof {
        lemma_existing_uid_is_first_match(entries_view(items@), url@);
    }
    let n = items.len();
    let mut i: usize = 0;
    assert(entries_view(items@).subrange(0, n as int) =~= entries_view(items@));
    while i < n
        invariant
            n == items@.len(),
            i <= n,
            existing_uid(entries_view(items@), url@) == existing_uid(
                entries_view(items@).subrange(i as int, n as int),
                url@,
            ),
        decreases n - i,
    {
        let ghost rest = entries_view(items@).subrange(i as int, n as int);
        assert(rest.drop_first() =~= entries_view(items@).subrange(i + 1, n as int));
        let entry = &items[i];
        match &entry.url {
            Some(u) => {
                if same_text(u.as_str(), url) {
                    match &entry.uid {
                        Some(uid) => {
                            proof {
                                lemma_existing_uid_is_first_match(entries_view(items@), url@);
                            }
                            return Some(uid.clone());
                        },
                        None => {},
                    }
                }
            },
            None => {},
        }
        i = i + 1;
    }
    proof {
        lemma_existing_uid_is_first_match(entries_view(items@), url@);
    }
    None
}

/// Why importing a subscription failed.
#[derive(Debug, Clone, Copy, PartialEq, Eq, Structural)]
pub enum ImportError {
    /// The downloaded profile came without a uid.
    MissingUid,
}

/// Accepts a freshly downloaded profile: it is only usable with a uid.
pub fn accept_imported_uid(uid: Option<String>) -> (r: Result<String, ImportError>)
    ensures
        uid matches Some(u) ==> (r matches Ok(v) && v@ == u@),
        uid is None ==> r == Err::<String, ImportError>(ImportError::MissingUid),
{
    match uid {
        Some(u) => Ok(u),
        None => Err(ImportError::MissingUid),
    }
}

// ---------------------------------------------------------------------------
// Importing the start-up list
// ---------------------------------------------------------------------------

/// A failed import of one URL is tried again at most this many times.
pub const MAX_IMPORT_RETRIES: u32 = 2;

/// Seconds to wait before trying a failed import again.
pub const IMPORT_RETRY_DELAY_SECS: u64 = 1;

/// An entry that the start-up import skips: blank once trimmed, or not a URL.
pub open spec fn skipped_entry(u: Seq<char>) -> bool {
    is_blank_text(u) || parsed_link(u) is None
}

/// An entry is skipped exactly when it is blank or not an absolute URL:
/// every non-blank absolute URL is imported, whatever its query or path.
pub proof fn lemma_skipped_exactly_blank_or_not_url(u: Seq<char>)
    ensures
        skipped_entry(u) <==> (is_blank_text(u) || parsed_link(u) is None),
        (!is_blank_text(u) && parsed_link(u) is Some) ==> !skipped_entry(u),
{
}

/// Whether the start-up import skips this entry.
pub fn is_skipped_entry(u: &str) -> (r: bool)
    ensures
        r == skipped_entry(u@),
        r == (is_blank_text(u@) || parsed_link(u@) is None),
{
    is_blank(u) || parse_link(u).is_err()
}

/// How many entries of the list are imported (not skipped).
pub open spec fn importable_count(urls: Seq<Seq<char>>) -> nat
    decreases urls.len(),
{
    if urls.len() == 0 {
        0
    } else {
        importable_count(urls.drop_last()) + if skipped_entry(urls.last()) { 0nat } else { 1nat }
    }
}

pub proof fn lemma_importable_count_bound(urls: Seq<Seq<char>>)
    ensures
        importable_count(urls) <= urls.len(),
    decreases urls.len(),
{
    if urls.len() > 0 {
        lemma_importable_count_bound(urls.drop_last());
    }
}

pub open spec fn urls_view(urls: Seq<String>) -> Seq<Seq<char>> {
    urls.map_values(|u: String| u@)
}

/// The progress of importing the configured start-up URLs, one at a time.
#[derive(Debug)]
pub struct StartupImport {
    /// The configured list.
    pub urls: Vec<String>,
    /// Entries before this index have been dealt with (or are in hand).
    pub next_index: usize,
    /// The entry being imported, if any.
    pub current: Option<usize>,
    /// Failed attempts so far on the entry in hand.
    pub retry_count: u32,
    pub success_count: usize,
    pub failed_count: usize,
    /// The uid of the latest successful import.
    pub last_successful_uid: Option<String>,
}

/// What to do after an attempt to import the entry in hand.
#[derive(Debug, Clone, Copy, PartialEq, Eq, Structural)]
pub enum AttemptStep {
    /// The entry was imported.
    Imported,
    /// Wait [`IMPORT_RETRY_DELAY_SECS`] and try the same entry again; this is
    /// retry number `retry`.
    Retry { retry: u32 },
    /// The entry failed for good.
    GaveUp,
}

/// What the user is told about one entry of the start-up list.
#[derive(Debug, Clone, Copy, PartialEq, Eq, Structural)]
pub enum ImportNotice {
    /// The entry was imported (the notice carries its uid).
    Imported,
    /// The entry failed after its last retry (the notice carries the error).
    Failed,
}

impl AttemptStep {
    /// The notice an attempt calls for: one when the entry is imported, one
    /// when it fails for good, none while it is retried.
    pub fn notice(self) -> (r: Option<ImportNotice>)
        ensures
            self == AttemptStep::Imported ==> r == Some(ImportNotice::Imported),
            self == AttemptStep::GaveUp ==> r == Some(ImportNotice::Failed),
            self is Retry ==> r is None,
    {
        match self {
            AttemptStep::Imported => Some(ImportNotice::Imported),
            AttemptStep::GaveUp => Some(ImportNotice::Failed),
            AttemptStep::Retry { .. } => None,
        }
    }
}

impl StartupImport {
    /// The bookkeeping that every step keeps: each entry dealt with was either
    /// imported or given up, blank entries are never counted, the entry in
    /// hand has had at most [`MAX_IMPORT_RETRIES`] retries, and a uid is kept
    /// exactly when something was imported.
    pub open spec fn wf(&self) -> bool {
        &&& self.next_index <= self.urls@.len()
        &&& self.retry_count <= MAX_IMPORT_RETRIES
        &&& (self.current matches Some(i) ==> i + 1 == self.next_index && !skipped_entry(
            self.urls@[i as int]@,
        ))
        &&& self.current is None ==> self.retry_count == 0
        &&& self.success_count + self.failed_count + (if self.current is Some { 1int } else {
            0int
        }) == importable_count(urls_view(self.urls@).take(self.next_index as int))
        &&& (self.success_count > 0 <==> self.last_successful_uid is Some)
    }

    /// Starts the import when it is enabled and the list is not empty.
    pub fn start(enabled: bool, urls: Vec<String>) -> (r: Option<StartupImport>)
        ensures
            (!enabled || urls@.len() == 0) ==> r is None,
            (enabled && urls@.len() > 0) ==> (r matches Some(s) && s.wf() && s.urls@ == urls@
                && s.next_index == 0 && s.current is None && s.success_count == 0
                && s.failed_count == 0),
    {
        if !enabled || urls.len() == 0 {
            return None;
        }
        let s = StartupImport {
            urls,
            next_index: 0,
            current: None,
            retry_count: 0,
            success_count: 0,
            failed_count: 0,
            last_successful_uid: None,
        };
        assert(urls_view(s.urls@).take(0) =~= Seq::<Seq<char>>::empty());
        Some(s)
    }

    /// Takes the next entry that is not blank, skipping blank ones; `None`
    /// when the list is done.
    pub fn next_entry(&mut self) -> (r: Option<usize>)
        requires
            old(self).wf(),
            old(self).current is None,
        ensures
            final(self).wf(),
            final(self).urls@ == old(self).urls@,
            final(self).success_count == old(self).success_count,
            final(self).failed_count == old(self).failed_count,
            final(self).last_successful_uid == old(self).last_successful_uid,
            final(self).current == r,
            final(self).retry_count == 0,
            r matches Some(i) ==> !is_blank_text(old(self).urls@[i as int]@) && parsed_link(
                old(self).urls@[i as int]@,
            ) is Some,
            forall|j: int|
                old(self).next_index <= j < final(self).next_index && (r matches Some(i) ==> j
                    < i) ==> (is_blank_text(#[trigger] old(self).urls@[j]@) || parsed_link(
                    old(self).urls@[j]@,
                ) is None),
            r matches Some(i) ==> old(self).next_index <= i < old(self).urls@.len()
                && !skipped_entry(old(self).urls@[i as int]@) && forall|j: int|
                old(self).next_index <= j < i ==> skipped_entry(#[trigger] old(self).urls@[j]@),
            r is None ==> final(self).next_index == old(self).urls@.len() && forall|j: int|
                old(self).next_index <= j < old(self).urls@.len() ==> skipped_entry(
                #[trigger] old(self).urls@[j]@,
            ),
    {
        let n = self.urls.len();
        let ghost start = self.next_index;
        while self.next_index < n
            invariant
                n == self.urls@.len(),
                self.urls@ == old(self).urls@,
                start == old(self).next_index,
                start <= self.next_index <= n,
                self.current is None,
                self.retry_count == 0,
                self.success_count == old(self).success_count,
                self.failed_count == old(self).failed_count,
                self.last_successful_uid == old(self).last_successful_uid,
                self.success_count + self.failed_count == importable_count(
                    urls_view(self.urls@).take(self.next_index as int),
                ),
                (self.success_count > 0 <==> self.last_successful_uid is Some),
                forall|j: int| start <= j < self.next_index ==> skipped_entry(#[trigger] self.urls@[j]@),
            decreases n - self.next_index,
        {
            let i = self.next_index;
            let blank = is_skipped_entry(self.urls[i].as_str());
            proof {
                let v = urls_view(self.urls@);
                assert(v.take(i + 1).drop_last() =~= v.take(i as int));
                assert(v.take(i + 1).last() == self.urls@[i as int]@);
            }
            self.next_index = i + 1;
            if !blank {
                self.current = Some(i);
                return Some(i);
            }
        }
        None
    }

    /// Records how an attempt on the entry in hand went: `Ok(uid)` when it
    /// was imported.
    pub fn record_attempt(&mut self, outcome: Result<String, ()>) -> (step: AttemptStep)
        requires
            old(self).wf(),
            old(self).current is Some,
        ensures
            final(self).wf(),
            final(self).urls@ == old(self).urls@,
            final(self).next_index == old(self).next_index,
            outcome matches Ok(uid) ==> step == AttemptStep::Imported
                && final(self).success_count == old(self).success_count + 1
                && final(self).failed_count == old(self).failed_count
                && final(self).last_successful_uid == Some(uid) && final(self).current is None,
            outcome is Err && old(self).retry_count < MAX_IMPORT_RETRIES ==> step == (
            AttemptStep::Retry { retry: (old(self).retry_count + 1) as u32 })
                && final(self).retry_count == old(self).retry_count + 1
                && final(self).current == old(self).current
                && final(self).success_count == old(self).success_count
                && final(self).failed_count == old(self).failed_count
                && final(self).last_successful_uid == old(self).last_successful_uid,
            outcome is Err && old(self).retry_count == MAX_IMPORT_RETRIES ==> step
                == AttemptStep::GaveUp && final(self).failed_count == old(self).failed_count + 1
                && final(self).success_count == old(self).success_count
                && final(self).last_successful_uid == old(self).last_successful_uid
                && final(self).current is None,
    {
        proof {
            lemma_importable_count_bound(urls_view(self.urls@).take(self.next_index as int));
        }
        match outcome {
            Ok(uid) => {
                self.success_count = self.success_count + 1;
                self.last_successful_uid = Some(uid);
                self.current = None;
                self.retry_count = 0;
                AttemptStep::Imported
            },
            Err(()) => {
                self.retry_count = self.retry_count + 1;
                if self.retry_count <= MAX_IMPORT_RETRIES {
                    AttemptStep::Retry { retry: self.retry_count }
                } else {
                    self.failed_count = self.failed_count + 1;
                    self.current = None;
                    self.retry_count = 0;
                    AttemptStep::GaveUp
                }
            },
        }
    }

    /// Whether the run is worth a summary line: something was imported or failed.
    pub fn has_summary(&self) -> (r: bool)
        ensures
            r == (self.success_count > 0 || self.failed_count > 0),
    {
        self.success_count > 0 || self.failed_count > 0
    }
}

/// When the whole list has been dealt with, every non-blank entry was either
/// imported or given up.
pub proof fn lemma_every_entry_accounted(run: StartupImport)
    requires
        run.wf(),
        run.current is None,
        run.next_index == run.urls@.len(),
    ensures
        run.success_count + run.failed_count == importable_count(urls_view(run.urls@)),
{
    assert(urls_view(run.urls@).take(run.next_index as int) =~= urls_view(run.urls@));
}

/// What follows the import of the start-up list.
#[derive(Debug, Clone, PartialEq, Eq)]
pub enum AfterImport {
    /// Nothing was imported: nothing more to do.
    Nothing,
    /// First start on Windows: carry out [`first_start_restart_steps`].
    RestartAfterFirstStart,
    /// Wait for the core, then switch to this profile (the latest imported).
    SwitchTo { uid: String },
}

/// One step of the restart that ends a first start on Windows.
#[derive(Debug, Clone, Copy, PartialEq, Eq, Structural)]
pub enum RestartStep {
    /// Record (and save) that the first start is over.
    MarkFirstStartDone,
    /// Stop the embedded server, so that the new process can take its port.
    ShutdownEmbedServer,
    /// Wait, so that the port is free before the new process starts.
    Sleep { ms: u64 },
    /// Restart the application.
    Restart,
}

/// How long to wait between stopping the embedded server and restarting.
pub const RESTART_DELAY_MS: u64 = 2000;

pub open spec fn restart_steps() -> Seq<RestartStep> {
    seq![
        RestartStep::MarkFirstStartDone,
        RestartStep::ShutdownEmbedServer,
        RestartStep::Sleep { ms: RESTART_DELAY_MS },
        RestartStep::Restart,
    ]
}

/// The restart that ends a first start on Windows: the embedded server is
/// stopped before the wait, so that its port is free for the new process.
pub fn first_start_restart_steps() -> (steps: Vec<RestartStep>)
    ensures
        steps@ == restart_steps(),
{
    let mut steps: Vec<RestartStep> = Vec::new();
    steps.push(RestartStep::MarkFirstStartDone);
    steps.push(RestartStep::ShutdownEmbedServer);
    steps.push(RestartStep::Sleep { ms: RESTART_DELAY_MS });
    steps.push(RestartStep::Restart);
    assert(steps@ =~= restart_steps());
    steps
}

/// Decides what follows the import: only a run that imported something goes
/// on, to the latest imported profile.
pub fn plan_after_import(last_successful_uid: Option<String>, windows_first_start: bool) -> (r:
    AfterImport)
    ensures
        last_successful_uid is None ==> r == AfterImport::Nothing,
        last_successful_uid is Some && windows_first_start ==> r
            == AfterImport::RestartAfterFirstStart,
        !windows_first_start ==> (last_successful_uid matches Some(u) ==> (r matches AfterImport::SwitchTo { uid } && uid@ == u@)),
{
    match last_successful_uid {
        None => AfterImport::Nothing,
        Some(uid) => {
            if windows_first_start {
                AfterImport::RestartAfterFirstStart
            } else {
                AfterImport::SwitchTo { uid }
            }
        },
    }
}

} // verus!
