//! Config entries: one folder per config under `config/`, holding the
//! `sing-box` config itself and a small metadata file.
use vstd::prelude::*;

use crate::text::{append_str, push_char};

verus! {

/// File name of the config handed to `sing-box -c`.
pub const CONFIG_FILENAME: &'static str = "config.json";

/// File name of the metadata next to it.
pub const METADATA_FILENAME: &'static str = "metadata.json";

// ----- paths as text -----------------------------------------------------------

/// A path separator on Windows.
pub open spec fn is_sep(c: char) -> bool {
    c == '\\' || c == '/'
}

/// `p` starts with a drive prefix such as `C:`.
pub open spec fn has_drive(p: Seq<char>) -> bool {
    p.len() >= 2 && p[1] == ':' && (('a' <= p[0] && p[0] <= 'z') || ('A' <= p[0] && p[0] <= 'Z'))
}

/// `p` starts with two separators: a UNC, device or verbatim prefix may
/// follow.
pub open spec fn has_double_sep(p: Seq<char>) -> bool {
    p.len() >= 2 && is_sep(p[0]) && is_sep(p[1])
}

/// What std's `Path::join` gives for the two texts, on the target's path
/// syntax.
pub uninterp spec fn path_join(base: Seq<char>, name: Seq<char>) -> Seq<char>;

/// `base` joined with `name` as std's `PathBuf::join` does it on Windows:
/// a `name` with a drive prefix replaces `base`; a `name` that starts with
/// a separator keeps only `base`'s drive prefix, if any; otherwise `name`
/// follows `base`, with a `\` between them unless `base` is empty, ends in
/// a separator or is a bare drive such as `C:`. Where either text starts
/// with two separators (UNC, device and verbatim prefixes, which std parses
/// further), it is what std's `Path::join` gives.
pub open spec fn join_spec(base: Seq<char>, name: Seq<char>) -> Seq<char> {
    if has_double_sep(base) || has_double_sep(name) {
        path_join(base, name)
    } else if has_drive(name) {
        name
    } else if name.len() > 0 && is_sep(name[0]) {
        if has_drive(base) {
            base.take(2) + name
        } else {
            name
        }
    } else if base.len() == 0 || is_sep(base.last()) || (base.len() == 2 && has_drive(base)) {
        base + name
    } else {
        base + seq!['\\'] + name
    }
}

/// std's `Path::join` on two texts, back as text (the joined path of two
/// UTF-8 texts is UTF-8, so nothing is lost). The contract only names the
/// result: it is a function of the two texts.
#[verifier::external_body]
fn std_path_join(base: &str, name: &str) -> (r: String)
    ensures
        r@ == path_join(base@, name@),
{
    std::path::Path::new(base).join(name).to_string_lossy().into_owned()
}

fn sep_char(c: char) -> (b: bool)
    ensures
        b == is_sep(c),
{
    c == '\\' || c == '/'
}

/// Whether the text of `n` characters starts with a drive prefix.
fn drive_at_start(s: &str, n: usize) -> (b: bool)
    requires
        n == s@.len(),
    ensures
        b == has_drive(s@),
{
    if n < 2 {
        return false;
    }
    let c = s.get_char(0);
    s.get_char(1) == ':' && (('a' <= c && c <= 'z') || ('A' <= c && c <= 'Z'))
}

/// Whether the text of `n` characters starts with two separators.
fn double_sep_at_start(s: &str, n: usize) -> (b: bool)
    requires
        n == s@.len(),
    ensures
        b == has_double_sep(s@),
{
    n >= 2 && sep_char(s.get_char(0)) && sep_char(s.get_char(1))
}

/// Joins a directory and a name as std's `PathBuf::join` does on Windows.
pub fn join_path(base: &str, name: &str) -> (r: String)
    ensures
        r@ == join_spec(base@, name@),
{
    let bn = base.unicode_len();
    let nn = name.unicode_len();
    if double_sep_at_start(base, bn) || double_sep_at_start(name, nn) {
        return std_path_join(base, name);
    }
    if drive_at_start(name, nn) {
        return name.to_owned();
    }
    if nn > 0 && sep_char(name.get_char(0)) {
        let mut s = String::new();
        if drive_at_start(base, bn) {
            push_char(&mut s, base.get_char(0));
            push_char(&mut s, base.get_char(1));
            assert(s@ =~= base@.take(2));
        }
        append_str(&mut s, name);
        return s;
    }
    let mut s = base.to_owned();
    if bn > 0 && !sep_char(base.get_char(bn - 1)) && !(bn == 2 && drive_at_start(base, bn)) {
        push_char(&mut s, '\\');
    }
    append_str(&mut s, name);
    s
}

// ----- the model -------------------------------------------------------------

/// Where a config came from, as text.
pub ghost enum SourceView {
    Local(Seq<char>),
    Remote(Seq<char>),
}

/// Where a config originally came from; used by the update action.
pub enum Source {
    /// Imported from a file; the path is kept so it can be re-imported.
    Local { path: String },
    /// Downloaded from a URL.
    Remote { url: String },
}

impl View for Source {
    type V = SourceView;

    open spec fn view(&self) -> SourceView {
        match self {
            Source::Local { path } => SourceView::Local(path@),
            Source::Remote { url } => SourceView::Remote(url@),
        }
    }
}

impl Clone for Source {
    fn clone(&self) -> (r: Self)
        ensures
            r@ == self@,
    {
        match self {
            Source::Local { path } => Source::Local { path: path.clone() },
            Source::Remote { url } => Source::Remote { url: url.clone() },
        }
    }
}

/// The label shown for a source's kind.
pub open spec fn kind_label_spec(s: SourceView) -> Seq<char> {
    match s {
        SourceView::Local(_) => "Local"@,
        SourceView::Remote(_) => "Remote"@,
    }
}

impl Source {
    /// `"Local"` or `"Remote"`.
    pub fn kind_label(&self) -> (r: &'static str)
        ensures
            r@ == kind_label_spec(self@),
    {
        match self {
            Source::Local { .. } => "Local",
            Source::Remote { .. } => "Remote",
        }
    }

    /// Whether two sources are the same kind with the same text.
    pub fn same_as(&self, other: &Source) -> (b: bool)
        ensures
            b == (self@ == other@),
    {
        match self {
            Source::Local { path: a } => match other {
                Source::Local { path: b } => {
                    let e = a.eq(b);
                    assert(e ==> self@ == other@);
                    assert(!e ==> self@ != other@) by {
                        if !e {
                            assert(a@ != b@);
                        }
                    }
                    e
                },
                Source::Remote { .. } => false,
            },
            Source::Remote { url: a } => match other {
                Source::Remote { url: b } => {
                    let e = a.eq(b);
                    assert(e ==> self@ == other@);
                    assert(!e ==> self@ != other@) by {
                        if !e {
                            assert(a@ != b@);
                        }
                    }
                    e
                },
                Source::Local { .. } => false,
            },
        }
    }

    /// Whether the source is a URL.
    pub fn is_remote(&self) -> (b: bool)
        ensures
            b == (self@ is Remote),
    {
        match self {
            Source::Remote { .. } => true,
            Source::Local { .. } => false,
        }
    }
}

/// A config's metadata, as text.
pub ghost struct MetadataView {
    pub name: Seq<char>,
    pub source: SourceView,
    pub last_updated: Option<Seq<char>>,
}

/// The contents of `metadata.json`.
pub struct ConfigMetadata {
    pub name: String,
    pub source: Source,
    pub last_updated: Option<String>,
}

/// The text of an optional string.
pub open spec fn opt_view(o: Option<String>) -> Option<Seq<char>> {
    match o {
        Some(s) => Some(s@),
        None => None,
    }
}

impl View for ConfigMetadata {
    type V = MetadataView;

    open spec fn view(&self) -> MetadataView {
        MetadataView {
            name: self.name@,
            source: self.source@,
            last_updated: opt_view(self.last_updated),
        }
    }
}

/// Copies an optional string.
pub fn clone_opt(o: &Option<String>) -> (r: Option<String>)
    ensures
        opt_view(r) == opt_view(*o),
{
    match o {
        Some(s) => Some(s.clone()),
        None => None,
    }
}

impl Clone for ConfigMetadata {
    fn clone(&self) -> (r: Self)
        ensures
            r@ == self@,
    {
        ConfigMetadata {
            name: self.name.clone(),
            source: self.source.clone(),
            last_updated: clone_opt(&self.last_updated),
        }
    }
}

/// A config folder, as text.
pub ghost struct EntryView {
    pub slug: Seq<char>,
    pub metadata: MetadataView,
    pub folder: Seq<char>,
}

/// A config folder loaded from disk.
pub struct ConfigEntry {
    /// Folder name under `config/`; the entry's stable id.
    pub slug: String,
    pub metadata: ConfigMetadata,
    pub folder: String,
}

impl View for ConfigEntry {
    type V = EntryView;

    open spec fn view(&self) -> EntryView {
        EntryView { slug: self.slug@, metadata: self.metadata@, folder: self.folder@ }
    }
}

impl Clone for ConfigEntry {
    fn clone(&self) -> (r: Self)
        ensures
            r@ == self@,
    {
        ConfigEntry {
            slug: self.slug.clone(),
            metadata: self.metadata.clone(),
            folder: self.folder.clone(),
        }
    }
}

impl ConfigEntry {
    /// `<folder>\config.json`.
    pub fn config_file(&self) -> (r: String)
        ensures
            r@ == join_spec(self.folder@, CONFIG_FILENAME@),
    {
        join_path(self.folder.as_str(), CONFIG_FILENAME)
    }

    /// `<folder>\metadata.json`.
    pub fn metadata_file(&self) -> (r: String)
        ensures
            r@ == join_spec(self.folder@, METADATA_FILENAME@),
    {
        join_path(self.folder.as_str(), METADATA_FILENAME)
    }
}

// ----- folder names ------------------------------------------------------------

/// One step of the xorshift64 generator.
pub open spec fn xorshift(s: u64) -> u64 {
    let a = s ^ (s << 13u64);
    let b = a ^ (a >> 7u64);
    b ^ (b << 17u64)
}

/// The generator's starting state from the clock reading and the
/// per-process counter; never zero.
pub open spec fn slug_seed(nanos: u64, counter: u64) -> u64 {
    let s = nanos ^ counter.wrapping_mul(0x9E37_79B9_7F4A_7C15u64);
    if s == 0 {
        0xDEAD_BEEF_CAFE_BABEu64
    } else {
        s
    }
}

/// Lower-case hexadecimal digit.
pub open spec fn hex_digit(d: u64) -> char {
    if d < 10 {
        (d + 48) as char
    } else {
        (d + 87) as char
    }
}

/// The `k` characters drawn from `state` onwards: each step advances the
/// generator and takes the hex digit of its low four bits.
pub open spec fn slug_chars(state: u64, k: nat) -> Seq<char>
    decreases k,
{
    if k == 0 {
        Seq::empty()
    } else {
        let next = xorshift(state);
        seq![hex_digit(next % 16)] + slug_chars(next, (k - 1) as nat)
    }
}

/// Length of a folder slug.
pub const SLUG_LEN: usize = 12;

/// The slug drawn for a clock reading and counter value.
pub open spec fn slug_for(nanos: u64, counter: u64) -> Seq<char> {
    slug_chars(slug_seed(nanos, counter), SLUG_LEN as nat)
}

/// A lower-case hex digit.
pub open spec fn is_hex_lower(c: char) -> bool {
    (48 <= c as u32 <= 57) || (97 <= c as u32 <= 102)
}

/// Twelve lower-case hex digits: safe as a folder name anywhere.
pub open spec fn is_slug(s: Seq<char>) -> bool {
    s.len() == SLUG_LEN && forall|i: int| 0 <= i < s.len() ==> is_hex_lower(#[trigger] s[i])
}

/// Law: every drawn slug is twelve lower-case hex digits.
pub proof fn law_slug_shape(state: u64, k: nat)
    ensures
        slug_chars(state, k).len() == k,
        forall|i: int|
            0 <= i < slug_chars(state, k).len() ==> is_hex_lower(#[trigger] slug_chars(state, k)[i]),
    decreases k,
{
    if k > 0 {
        let next = xorshift(state);
        law_slug_shape(next, (k - 1) as nat);
        let head = seq![hex_digit(next % 16)];
        let rest = slug_chars(next, (k - 1) as nat);
        assert forall|i: int| 0 <= i < (head + rest).len() implies is_hex_lower(
            #[trigger] (head + rest)[i],
        ) by {
            if i > 0 {
                assert((head + rest)[i] == rest[i - 1]);
            }
        }
    }
}

pub(crate) fn hex_char(d: u64) -> (c: char)
    requires
        d < 16,
    ensures
        c == hex_digit(d),
{
    if d < 10 {
        ((d as u8) + 48u8) as char
    } else {
        ((d as u8) + 87u8) as char
    }
}

fn xorshift_step(s: u64) -> (r: u64)
    ensures
        r == xorshift(s),
{
    let mut state = s;
    state = state ^ (state << 13u64);
    state = state ^ (state >> 7u64);
    state = state ^ (state << 17u64);
    state
}

/// The slug for a clock reading and counter value.
pub fn slug_from(nanos: u64, counter: u64) -> (r: String)
    ensures
        r@ == slug_for(nanos, counter),
{
    let mut state = nanos ^ counter.wrapping_mul(0x9E37_79B9_7F4A_7C15u64);
    if state == 0 {
        state = 0xDEAD_BEEF_CAFE_BABEu64;
    }
    let ghost seed = state;
    let mut out = String::new();
    let mut i: usize = 0;
    while i < SLUG_LEN
        invariant
            i <= SLUG_LEN,
            seed == slug_seed(nanos, counter),
            out@ + slug_chars(state, (SLUG_LEN - i) as nat) == slug_chars(seed, SLUG_LEN as nat),
        decreases SLUG_LEN - i,
    {
        let ghost before = out@;
        let ghost old_state = state;
        state = xorshift_step(state);
        let low = state & 0xF;
        assert(state & 0xF == state % 16) by (bit_vector);
        push_char(&mut out, hex_char(low));
        assert(before + slug_chars(old_state, (SLUG_LEN - i) as nat) =~= out@ + slug_chars(
            state,
            (SLUG_LEN - i - 1) as nat,
        ));
        i = i + 1;
    }
    assert(out@ + Seq::<char>::empty() =~= out@);
    out
}

/// Nanoseconds since the Unix epoch by the system clock (std's
/// `SystemTime::now`), truncated to 64 bits, or 0 if the clock is set
/// before 1970. Nothing is claimed of the value: it is the time.
#[verifier::external_body]
fn clock_nanos() -> u64 {
    std::time::SystemTime::now().duration_since(std::time::UNIX_EPOCH).map(
        |d| d.as_nanos() as u64,
    ).unwrap_or(0)
}

/// Draws folder slugs: a clock reading mixed with a counter that goes up
/// by one per slug drawn.
pub struct SlugSource {
    counter: u64,
}

impl SlugSource {
    /// The counter value the next slug is drawn with.
    pub closed spec fn next_counter(&self) -> u64 {
        self.counter
    }

    /// A source whose counter starts at zero.
    pub fn new() -> (r: Self)
        ensures
            r.next_counter() == 0,
    {
        SlugSource { counter: 0 }
    }

    /// A random 12-character lower-case hex slug: the slug for the current
    /// clock reading and this source's counter, which then moves on.
    pub fn random_slug(&mut self) -> (r: String)
        ensures
            exists|nanos: u64| r@ == slug_for(nanos, old(self).next_counter()),
            is_slug(r@),
            final(self).next_counter() == old(self).next_counter().wrapping_add(1),
    {
        let nanos = clock_nanos();
        let n = self.counter;
        self.counter = n.wrapping_add(1);
        let r = slug_from(nanos, n);
        proof {
            law_slug_shape(slug_seed(nanos, n), SLUG_LEN as nat);
            assert(n == old(self).next_counter());
            assert(r@ == slug_for(nanos, old(self).next_counter()));
        }
        r
    }

    /// Starts the search for a folder name under `config_dir` that nothing
    /// occupies yet: a first slug is drawn, and the caller is asked whether
    /// its folder exists.
    pub fn unique_slug(&mut self, config_dir: &str) -> (r: (SlugSearch, SlugIo))
        ensures
            is_slug(r.0@.candidate),
            exists|nanos: u64| r.0@.candidate == #[trigger] slug_for(nanos, old(self).next_counter()),
            final(self).next_counter() == old(self).next_counter().wrapping_add(1),
            r.0@.dir == config_dir@,
            r.0@.tries == 1,
            !r.0@.done,
            r.1@ == SlugIoView::Exists(join_spec(config_dir@, r.0@.candidate)),
    {
        let candidate = self.random_slug();
        let path = join_path(config_dir, candidate.as_str());
        let search = SlugSearch {
            dir: config_dir.to_owned(),
            candidate,
            tries: 1,
            done: false,
        };
        (search, SlugIo::Exists(path))
    }
}

/// Most folder names checked before a search gives up on finding a free one.
pub const SLUG_TRIES: u64 = 1000;

/// A folder name the search settled on.
pub struct SlugFound {
    slug: String,
    checked_free: bool,
}

/// A settled folder name, as text.
pub ghost struct SlugFoundView {
    pub slug: Seq<char>,
    /// Whether the caller reported that nothing existed at its folder;
    /// `false` only for the fallback after every try collided.
    pub checked_free: bool,
}

impl View for SlugFound {
    type V = SlugFoundView;

    closed spec fn view(&self) -> SlugFoundView {
        SlugFoundView { slug: self.slug@, checked_free: self.checked_free }
    }
}

impl SlugFound {
    /// A settled name is a well-formed slug.
    #[verifier::type_invariant]
    spec fn slug_shape(&self) -> bool {
        is_slug(self.slug@)
    }

    /// The folder name, a well-formed slug.
    pub fn slug(&self) -> (r: &str)
        ensures
            r@ == self@.slug,
            is_slug(r@),
    {
        proof {
            use_type_invariant(self);
        }
        self.slug.as_str()
    }

    /// Whether the folder was reported free.
    pub fn checked_free(&self) -> (r: bool)
        ensures
            r == self@.checked_free,
    {
        self.checked_free
    }
}

/// What the search asks of its caller next.
pub enum SlugIo {
    /// Report whether anything exists at this path.
    Exists(String),
    /// The search is over.
    Done(SlugFound),
}

/// The search's request, as text.
pub ghost enum SlugIoView {
    Exists(Seq<char>),
    Done(SlugFoundView),
}

impl View for SlugIo {
    type V = SlugIoView;

    open spec fn view(&self) -> SlugIoView {
        match self {
            SlugIo::Exists(p) => SlugIoView::Exists(p@),
            SlugIo::Done(f) => SlugIoView::Done(f@),
        }
    }
}

/// The search for a free folder name under a directory: each candidate's
/// folder is checked; a taken one makes way for a fresh draw, up to
/// [`SLUG_TRIES`] checks, after which one more slug is drawn unchecked.
pub struct SlugSearch {
    dir: String,
    candidate: String,
    tries: u64,
    done: bool,
}

/// A search, as text.
pub ghost struct SlugSearchView {
    pub dir: Seq<char>,
    /// The slug whose folder was asked about last (or settled on).
    pub candidate: Seq<char>,
    /// How many folders have been asked about.
    pub tries: u64,
    pub done: bool,
}

impl View for SlugSearch {
    type V = SlugSearchView;

    closed spec fn view(&self) -> SlugSearchView {
        SlugSearchView {
            dir: self.dir@,
            candidate: self.candidate@,
            tries: self.tries,
            done: self.done,
        }
    }
}

impl SlugSearch {
    /// The bounds a search keeps: a well-formed slug as candidate, at least
    /// one folder asked about, at most [`SLUG_TRIES`] while it runs and one
    /// more draw once it gave up.
    #[verifier::type_invariant]
    spec fn bounds(&self) -> bool {
        is_slug(self.candidate@) && 1 <= self.tries && self.tries <= SLUG_TRIES + 1 && (!self.done
            ==> self.tries <= SLUG_TRIES)
    }

    /// Takes the answer to the last `Exists`. A free folder ends the search
    /// with its slug; a taken one draws a fresh slug from `slugs` and asks
    /// about its folder, unless [`SLUG_TRIES`] folders were asked about
    /// already: then a fresh slug ends the search unchecked. Once over, the
    /// search answers with the same slug again.
    pub fn step(&mut self, exists: bool, slugs: &mut SlugSource) -> (io: SlugIo)
        ensures
            final(self)@.dir == old(self)@.dir,
            old(self)@.done ==> final(self)@ == old(self)@ && final(slugs).next_counter() == old(slugs).next_counter()
                && io@ == SlugIoView::Done(
                SlugFoundView { slug: old(self)@.candidate, checked_free: old(self)@.tries <= SLUG_TRIES },
            ),
            !old(self)@.done && !exists ==> final(self)@ == (SlugSearchView { done: true, ..old(self)@ })
                && final(slugs).next_counter() == old(slugs).next_counter() && io@ == SlugIoView::Done(
                SlugFoundView { slug: old(self)@.candidate, checked_free: true },
            ),
            !old(self)@.done && exists ==> is_slug(final(self)@.candidate)
                && (exists|nanos: u64| final(self)@.candidate == #[trigger] slug_for(nanos, old(slugs).next_counter()))
                && final(slugs).next_counter() == old(slugs).next_counter().wrapping_add(1),
            !old(self)@.done && exists && old(self)@.tries < SLUG_TRIES ==> final(self)@.tries
                == old(self)@.tries + 1 && !final(self)@.done && io@ == SlugIoView::Exists(
                join_spec(old(self)@.dir, final(self)@.candidate),
            ),
            !old(self)@.done && exists && old(self)@.tries == SLUG_TRIES ==> final(self)@.tries
                == old(self)@.tries + 1 && final(self)@.done && io@ == SlugIoView::Done(
                SlugFoundView { slug: final(self)@.candidate, checked_free: false },
            ),
    {
        proof {
            use_type_invariant(&*self);
        }
        if self.done {
            let found = SlugFound { slug: self.candidate.clone(), checked_free: self.tries <= SLUG_TRIES };
            return SlugIo::Done(found);
        }
        if !exists {
            self.done = true;
            return SlugIo::Done(SlugFound { slug: self.candidate.clone(), checked_free: true });
        }
        let next = slugs.random_slug();
        let gave_up = self.tries >= SLUG_TRIES;
        let io = if gave_up {
            SlugIo::Done(SlugFound { slug: next.clone(), checked_free: false })
        } else {
            SlugIo::Exists(join_path(self.dir.as_str(), next.as_str()))
        };
        *self = SlugSearch {
            dir: self.dir.clone(),
            candidate: next,
            tries: self.tries + 1,
            done: gave_up,
        };
        io
    }
}

} // verus!
