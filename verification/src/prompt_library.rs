//! A library of user prompts, some of which are active, and the split of a
//! prompt file into its front matter and its body.
use vstd::hash_map::StringHashMap;
use vstd::prelude::*;
use vstd::string::StrSliceExecFns;

verus! {

/// Why a prompt library request failed.
#[derive(Clone, Copy, Debug, PartialEq, Eq, Structural)]
pub enum PromptLibraryError {
    /// No prompt has the given id (or, when deactivating, the given title).
    PromptNotFound,
    /// The text does not hold front matter between two `---` lines.
    MissingFrontMatter,
}

/// The front matter of a prompt file.
#[derive(Debug)]
pub struct PromptMetadata {
    title: String,
    author: String,
    languages: Option<Vec<String>>,
}

/// A prompt: its front matter and its body.
#[derive(Debug)]
pub struct UserPrompt {
    metadata: PromptMetadata,
    content: String,
}

/// A prompt as mathematical values.
pub struct UserPromptView {
    pub title: Seq<char>,
    pub author: Seq<char>,
    pub languages: Option<Seq<String>>,
    pub content: Seq<char>,
}

impl View for UserPrompt {
    type V = UserPromptView;

    closed spec fn view(&self) -> UserPromptView {
        UserPromptView {
            title: self.metadata.title@,
            author: self.metadata.author@,
            languages: match self.metadata.languages {
                Some(l) => Some(l@),
                None => None,
            },
            content: self.content@,
        }
    }
}

fn clone_strings(v: &Vec<String>) -> (r: Vec<String>)
    ensures
        r@ == v@,
{
    let mut r: Vec<String> = Vec::new();
    let mut i: usize = 0;
    while i < v.len()
        invariant
            i <= v.len(),
            r@ == v@.subrange(0, i as int),
        decreases v.len() - i,
    {
        r.push(v[i].clone());
        i += 1;
        assert(r@ =~= v@.subrange(0, i as int));
    }
    assert(r@ =~= v@);
    r
}

impl PromptMetadata {
    pub fn new(title: String, author: String, languages: Option<Vec<String>>) -> (m: Self)
        ensures
            m.title() == title@,
            m.author() == author@,
            m.languages() == (match languages {
                Some(l) => Some(l@),
                None => None,
            }),
    {
        PromptMetadata { title, author, languages }
    }

    pub closed spec fn title(&self) -> Seq<char> {
        self.title@
    }

    pub closed spec fn author(&self) -> Seq<char> {
        self.author@
    }

    pub closed spec fn languages(&self) -> Option<Seq<String>> {
        match self.languages {
            Some(l) => Some(l@),
            None => None,
        }
    }

    fn duplicate(&self) -> (m: Self)
        ensures
            m.title@ == self.title@,
            m.author@ == self.author@,
            m.languages() == self.languages(),
    {
        PromptMetadata {
            title: self.title.clone(),
            author: self.author.clone(),
            languages: match &self.languages {
                Some(l) => Some(clone_strings(l)),
                None => None,
            },
        }
    }
}

impl UserPrompt {
    pub fn new(metadata: PromptMetadata, content: String) -> (p: Self)
        ensures
            p@ == (UserPromptView {
                title: metadata.title(),
                author: metadata.author(),
                languages: metadata.languages(),
                content: content@,
            }),
    {
        UserPrompt { metadata, content }
    }

    fn duplicate(&self) -> (p: Self)
        ensures
            p@ == self@,
    {
        UserPrompt { metadata: self.metadata.duplicate(), content: self.content.clone() }
    }
}

/// The views of a list of prompts.
pub open spec fn prompt_views(v: Seq<UserPrompt>) -> Seq<UserPromptView> {
    v.map_values(|p: UserPrompt| p@)
}

/// `parts` joined with `sep` between consecutive parts.
pub open spec fn joined(parts: Seq<Seq<char>>, sep: Seq<char>) -> Seq<char>
    decreases parts.len(),
{
    if parts.len() == 0 {
        Seq::empty()
    } else if parts.len() == 1 {
        parts[0]
    } else {
        joined(parts.take(parts.len() - 1), sep) + sep + parts[parts.len() - 1]
    }
}

/// The text put between the bodies of active prompts.
pub open spec fn prompt_separator() -> Seq<char> {
    seq!['\n', '\n', '-', '-', '-', '\n', '\n']
}

/// The first index `k >= from` of `ids` whose id the library lacks.
pub open spec fn first_missing(prompts: Map<Seq<char>, UserPrompt>, ids: Seq<String>, from: int) -> int
    decreases ids.len() - from,
{
    if from >= ids.len() || from < 0 {
        ids.len() as int
    } else if !prompts.contains_key(ids[from]@) {
        from
    } else {
        first_missing(prompts, ids, from + 1)
    }
}

/// The views of the prompts that `ids[from..to]` name.
pub open spec fn named_prompts(prompts: Map<Seq<char>, UserPrompt>, ids: Seq<String>, from: int, to: int) -> Seq<UserPromptView>
    decreases to - from,
{
    if to <= from {
        Seq::empty()
    } else {
        named_prompts(prompts, ids, from, to - 1).push(prompts[ids[to - 1]@]@)
    }
}

/// The first index of `active` whose title is `title`.
pub open spec fn first_with_title(active: Seq<UserPromptView>, title: Seq<char>, from: int) -> int
    decreases active.len() - from,
{
    if from >= active.len() || from < 0 {
        active.len() as int
    } else if active[from].title == title {
        from
    } else {
        first_with_title(active, title, from + 1)
    }
}

/// The map after inserting `prompts[i]` under `ids[i]` for each `i < n`, in order.
pub open spec fn inserted_all(m: Map<Seq<char>, UserPrompt>, ids: Seq<String>, prompts: Seq<UserPrompt>, n: int) -> Map<Seq<char>, UserPrompt>
    decreases n,
{
    if n <= 0 {
        m
    } else {
        inserted_all(m, ids, prompts, n - 1).insert(ids[n - 1]@, prompts[n - 1])
    }
}

/// Whether `c` is a lowercase hexadecimal digit.
pub open spec fn is_lower_hex(c: char) -> bool {
    ('0' <= c && c <= '9') || ('a' <= c && c <= 'f')
}

/// Whether `s` is the hyphenated lowercase text of a random (version 4,
/// RFC 4122 variant) UUID: 36 characters, hyphens at positions 8, 13, 18
/// and 23, lowercase hexadecimal digits elsewhere, a `4` at position 14
/// and one of `8`, `9`, `a`, `b` at position 19.
pub open spec fn is_v4_uuid_text(s: Seq<char>) -> bool {
    &&& s.len() == 36
    &&& forall|i: int|
        0 <= i < 36 ==> if i == 8 || i == 13 || i == 18 || i == 23 {
            #[trigger] s[i] == '-'
        } else {
            is_lower_hex(s[i])
        }
    &&& s[14] == '4'
    &&& (s[19] == '8' || s[19] == '9' || s[19] == 'a' || s[19] == 'b')
}

/// `uuid::Uuid::new_v4().to_string()`: a fresh random identifier.  Its
/// value is random; what holds of every value is its shape, the hyphenated
/// lowercase text of a version 4 UUID (the `Display` of `Uuid` writes the
/// hyphenated form in lowercase, and `new_v4` sets the version and variant
/// bits).  That two calls give different ids is left unsaid: it rests on
/// chance.
#[verifier::external_body]
fn new_prompt_id() -> (id: String)
    ensures
        is_v4_uuid_text(id@),
{
    uuid::Uuid::new_v4().to_string()
}

/// A set of prompts by id, and the list of active prompts.
pub struct PromptLibrary {
    prompts: StringHashMap<UserPrompt>,
    active_prompts: Vec<UserPrompt>,
}

impl PromptLibrary {
    /// The prompts by id.
    pub closed spec fn prompts(&self) -> Map<Seq<char>, UserPrompt> {
        self.prompts@
    }

    /// The active prompts, oldest activation first.
    pub closed spec fn active(&self) -> Seq<UserPromptView> {
        prompt_views(self.active_prompts@)
    }

    pub fn new() -> (l: Self)
        ensures
            l.prompts() == Map::<Seq<char>, UserPrompt>::empty(),
            l.active() == Seq::<UserPromptView>::empty(),
    {
        let l = PromptLibrary { prompts: StringHashMap::new(), active_prompts: Vec::new() };
        assert(l.active() =~= Seq::<UserPromptView>::empty());
        l
    }

    /// Adds `prompts`, each under a fresh random id; returns the ids in the
    /// order of `prompts`.  Each id is the text of a random UUID.
    pub fn load_prompts(&mut self, prompts: Vec<UserPrompt>) -> (ids: Vec<String>)
        ensures
            ids.len() == prompts.len(),
            forall|i: int| 0 <= i < ids@.len() ==> is_v4_uuid_text(#[trigger] ids@[i]@),
            final(self).prompts() == inserted_all(old(self).prompts(), ids@, prompts@, prompts.len() as int),
            final(self).active() == old(self).active(),
    {
        let mut ids: Vec<String> = Vec::new();
        let ghost all = prompts@;
        assert(all.len() == prompts.len());
        let mut prompts = prompts;
        let mut n: usize = 0;
        while prompts.len() > 0
            invariant
                n <= all.len(),
                all.len() <= usize::MAX,
                prompts@ == all.skip(n as int),
                ids.len() == n,
                forall|i: int| 0 <= i < ids@.len() ==> is_v4_uuid_text(#[trigger] ids@[i]@),
                self.prompts@ == inserted_all(old(self).prompts@, ids@, all, n as int),
                prompt_views(self.active_prompts@) == prompt_views(old(self).active_prompts@),
            decreases prompts.len(),
        {
            let p = prompts.remove(0);
            assert(p == all[n as int]);
            assert(prompts@ =~= all.skip(n + 1));
            let id = new_prompt_id();
            let ghost id_view = id@;
            self.prompts.insert(id.clone(), p);
            let ghost old_ids = ids@;
            ids.push(id);
            proof {
                assert(ids@[n as int]@ == id_view);
                lemma_inserted_all_prefix(old(self).prompts@, ids@, old_ids, all, n as int);
            }
            n += 1;
        }
        ids
    }

    /// Makes the prompt with id `prompt_id` active (again, if it already is).
    pub fn activate_prompt(&mut self, prompt_id: String) -> (r: Result<(), PromptLibraryError>)
        ensures
            final(self).prompts() == old(self).prompts(),
            match r {
                Ok(()) => old(self).prompts().contains_key(prompt_id@) && final(self).active()
                    == old(self).active().push(old(self).prompts()[prompt_id@]@),
                Err(e) => !old(self).prompts().contains_key(prompt_id@) && e
                    == PromptLibraryError::PromptNotFound && final(self).active() == old(
                    self,
                ).active(),
            },
    {
        match self.prompts.get(prompt_id.as_str()) {
            None => Err(PromptLibraryError::PromptNotFound),
            Some(prompt) => {
                let copy = prompt.duplicate();
                self.active_prompts.push(copy);
                assert(prompt_views(self.active_prompts@) =~= prompt_views(
                    old(self).active_prompts@,
                ).push(copy@));
                Ok(())
            },
        }
    }

    /// Activates the prompts that `prompt_ids` name, in order, stopping at
    /// the first id the library lacks.
    pub fn activate_prompts(&mut self, prompt_ids: Vec<String>) -> (r: Result<(), PromptLibraryError>)
        ensures
            final(self).prompts() == old(self).prompts(),
            ({
                let k = first_missing(old(self).prompts(), prompt_ids@, 0);
                &&& final(self).active() == old(self).active() + named_prompts(
                    old(self).prompts(),
                    prompt_ids@,
                    0,
                    k,
                )
                &&& (r is Ok <==> k == prompt_ids.len())
                &&& (r matches Err(e) ==> e == PromptLibraryError::PromptNotFound)
            }),
    {
        let mut i: usize = 0;
        while i < prompt_ids.len()
            invariant
                i <= prompt_ids.len(),
                self.prompts() == old(self).prompts(),
                first_missing(old(self).prompts(), prompt_ids@, 0) == first_missing(
                    old(self).prompts(),
                    prompt_ids@,
                    i as int,
                ),
                self.active() == old(self).active() + named_prompts(
                    old(self).prompts(),
                    prompt_ids@,
                    0,
                    i as int,
                ),
            decreases prompt_ids.len() - i,
        {
            let r = self.activate_prompt(prompt_ids[i].clone());
            if r.is_err() {
                assert(first_missing(old(self).prompts(), prompt_ids@, i as int) == i);
                return r;
            }
            assert(self.active() =~= old(self).active() + named_prompts(
                old(self).prompts(),
                prompt_ids@,
                0,
                i + 1,
            ));
            i += 1;
        }
        Ok(())
    }

    /// Deactivates the first active prompt whose title is `prompt_id`.
    pub fn deactivate_prompt(&mut self, prompt_id: String) -> (r: Result<(), PromptLibraryError>)
        ensures
            final(self).prompts() == old(self).prompts(),
            ({
                let k = first_with_title(old(self).active(), prompt_id@, 0);
                match r {
                    Ok(()) => k < old(self).active().len() && old(self).active()[k].title
                        == prompt_id@ && (forall|j: int|
                        0 <= j < k ==> #[trigger] old(self).active()[j].title != prompt_id@)
                        && final(self).active() == old(self).active().remove(k),
                    Err(e) => k == old(self).active().len() && (forall|j: int|
                        0 <= j < old(self).active().len() ==> #[trigger] old(self).active()[j].title
                            != prompt_id@) && e
                        == PromptLibraryError::PromptNotFound && final(self).active() == old(
                        self,
                    ).active(),
                }
            }),
    {
        let mut index: usize = 0;
        while index < self.active_prompts.len()
            invariant
                index <= self.active_prompts.len(),
                self.active_prompts@ == old(self).active_prompts@,
                self.prompts@ == old(self).prompts@,
                first_with_title(old(self).active(), prompt_id@, 0) == first_with_title(
                    old(self).active(),
                    prompt_id@,
                    index as int,
                ),
            decreases self.active_prompts.len() - index,
        {
            if self.active_prompts[index].metadata.title == prompt_id {
                let ghost before = self.active_prompts@;
                self.active_prompts.remove(index);
                assert(prompt_views(self.active_prompts@) =~= prompt_views(before).remove(
                    index as int,
                ));
                proof {
                    lemma_first_with_title_is_first(old(self).active(), prompt_id@, 0);
                }
                return Ok(());
            }
            index += 1;
        }
        proof {
            lemma_first_with_title_is_first(old(self).active(), prompt_id@, 0);
        }
        Err(PromptLibraryError::PromptNotFound)
    }

    /// The bodies of the active prompts, separated by a `---` line.
    pub fn join_active_prompts(&self) -> (s: String)
        ensures
            s@ == joined(self.active().map_values(|p: UserPromptView| p.content), prompt_separator()),
    {
        let sep = "\n\n---\n\n";
        proof {
            reveal_strlit("\n\n---\n\n");
            assert(sep@ =~= prompt_separator());
        }
        let ghost parts = self.active().map_values(|p: UserPromptView| p.content);
        let mut s = String::new();
        let mut i: usize = 0;
        while i < self.active_prompts.len()
            invariant
                i <= self.active_prompts.len(),
                parts.len() == self.active_prompts.len(),
                forall|k: int| 0 <= k < parts.len() ==> parts[k] == #[trigger] self.active_prompts@[k].content@,
                s@ == joined(parts.take(i as int), prompt_separator()),
                sep@ == prompt_separator(),
            decreases self.active_prompts.len() - i,
        {
            if i > 0 {
                s.append(sep);
            }
            s.append(self.active_prompts[i].content.as_str());
            assert(parts.take(i + 1).take(i as int) =~= parts.take(i as int));
            i += 1;
        }
        assert(parts.take(i as int) =~= parts);
        s
    }
}

/// `char::is_whitespace`: the characters with the Unicode `White_Space`
/// property.
pub open spec fn is_unicode_whitespace(c: char) -> bool {
    let u = c as u32;
    (0x9 <= u <= 0xd) || u == 0x20 || u == 0x85 || u == 0xa0 || u == 0x1680 || (0x2000 <= u
        <= 0x200a) || u == 0x2028 || u == 0x2029 || u == 0x202f || u == 0x205f || u == 0x3000
}

fn is_whitespace(c: char) -> (r: bool)
    ensures
        r == is_unicode_whitespace(c),
{
    let u = c as u32;
    (0x9 <= u && u <= 0xd) || u == 0x20 || u == 0x85 || u == 0xa0 || u == 0x1680 || (0x2000 <= u
        && u <= 0x200a) || u == 0x2028 || u == 0x2029 || u == 0x202f || u == 0x205f || u == 0x3000
}

/// `---` starts at index `i` of `s`.
pub open spec fn dashes_at(s: Seq<char>, i: int) -> bool {
    0 <= i && i + 3 <= s.len() && s[i] == '-' && s[i + 1] == '-' && s[i + 2] == '-'
}

/// The first index from `from` on where `---` starts.
pub open spec fn first_dashes(s: Seq<char>, from: int) -> Option<int>
    decreases s.len() - from,
{
    if from < 0 || from + 3 > s.len() {
        None
    } else if dashes_at(s, from) {
        Some(from)
    } else {
        first_dashes(s, from + 1)
    }
}

/// The number of whitespace characters from `lo` onwards, below `hi`.
pub open spec fn leading_space(s: Seq<char>, lo: int, hi: int) -> nat
    decreases hi - lo,
{
    if lo < hi && is_unicode_whitespace(s[lo]) {
        1 + leading_space(s, lo + 1, hi)
    } else {
        0
    }
}

/// The number of whitespace characters just below `hi`, down to `lo`.
pub open spec fn trailing_space(s: Seq<char>, lo: int, hi: int) -> nat
    decreases hi - lo,
{
    if lo < hi && is_unicode_whitespace(s[hi - 1]) {
        1 + trailing_space(s, lo, hi - 1)
    } else {
        0
    }
}

/// `s[lo..hi]` without whitespace at either end.
pub open spec fn trimmed(s: Seq<char>, lo: int, hi: int) -> Seq<char> {
    let start = lo + leading_space(s, lo, hi);
    if start >= hi {
        Seq::empty()
    } else {
        s.subrange(start, hi - trailing_space(s, lo, hi))
    }
}

/// The front matter (between the first two `---`) and the body (after the
/// second `---`) of a prompt text, both trimmed; `None` without two `---`.
pub open spec fn spec_front_matter(s: Seq<char>) -> Option<(Seq<char>, Seq<char>)> {
    match first_dashes(s, 0) {
        None => None,
        Some(i) => match first_dashes(s, i + 3) {
            None => None,
            Some(j) => Some((trimmed(s, i + 3, j), trimmed(s, j + 3, s.len() as int))),
        },
    }
}

fn find_dashes(s: &str, len: usize, from: usize) -> (r: Option<usize>)
    requires
        len == s@.len(),
    ensures
        match r {
            Some(i) => first_dashes(s@, from as int) == Some(i as int) && from <= i && i + 3 <= len,
            None => first_dashes(s@, from as int) is None,
        },
{
    let mut i = from;
    while i < len && len - i >= 3
        invariant
            from <= i,
            len == s@.len(),
            first_dashes(s@, from as int) == first_dashes(s@, i as int),
        decreases len - i,
    {
        if s.get_char(i) == '-' && s.get_char(i + 1) == '-' && s.get_char(i + 2) == '-' {
            return Some(i);
        }
        i += 1;
    }
    None
}

fn trim_range(s: &str, lo: usize, hi: usize) -> (r: String)
    requires
        lo <= hi <= s@.len(),
    ensures
        r@ == trimmed(s@, lo as int, hi as int),
{
    let mut start = lo;
    while start < hi && is_whitespace(s.get_char(start))
        invariant
            lo <= start <= hi,
            hi <= s@.len(),
            lo + leading_space(s@, lo as int, hi as int) == start + leading_space(s@, start as int, hi as int),
        decreases hi - start,
    {
        start += 1;
    }
    if start >= hi {
        return String::new();
    }
    let mut end = hi;
    while end > start && is_whitespace(s.get_char(end - 1))
        invariant
            start < end <= hi,
            hi <= s@.len(),
            lo <= start < hi,
            start == lo + leading_space(s@, lo as int, hi as int),
            !is_unicode_whitespace(s@[start as int]),
            hi - trailing_space(s@, lo as int, hi as int) == end - trailing_space(s@, lo as int, end as int),
        decreases end - start,
    {
        end -= 1;
    }
    assert(trailing_space(s@, lo as int, end as int) == 0);
    s.substring_char(start, end).to_owned()
}

impl UserPrompt {
    /// Splits a prompt text at its first two `---`: the trimmed front matter
    /// between them and the trimmed body after them.
    pub fn split_front_matter(content: &str) -> (r: Result<(String, String), PromptLibraryError>)
        ensures
            match spec_front_matter(content@) {
                Some(parts) => r is Ok && r->Ok_0.0@ == parts.0 && r->Ok_0.1@ == parts.1,
                None => r is Err && r->Err_0 == PromptLibraryError::MissingFrontMatter,
            },
    {
        let len = content.unicode_len();
        match find_dashes(content, len, 0) {
            None => Err(PromptLibraryError::MissingFrontMatter),
            Some(i) => match find_dashes(content, len, i + 3) {
                None => Err(PromptLibraryError::MissingFrontMatter),
                Some(j) => {
                    let front = trim_range(content, i + 3, j);
                    let body = trim_range(content, j + 3, len);
                    assert(spec_front_matter(content@) == Some(
                        (trimmed(content@, i + 3, j as int), trimmed(content@, j + 3, len as int)),
                    ));
                    Ok((front, body))
                },
            },
        }
    }
}

/// The search for a title finds the first active prompt whose title is
/// exactly that title: the prompt found has it, no earlier prompt has it,
/// and where none is found no prompt has it.
pub proof fn lemma_first_with_title_is_first(active: Seq<UserPromptView>, title: Seq<char>, from: int)
    requires
        0 <= from <= active.len(),
    ensures
        from <= first_with_title(active, title, from) <= active.len(),
        first_with_title(active, title, from) < active.len() ==> active[first_with_title(
            active,
            title,
            from,
        )].title == title,
        forall|j: int|
            from <= j < first_with_title(active, title, from) ==> #[trigger] active[j].title
                != title,
    decreases active.len() - from,
{
    if from < active.len() && active[from].title != title {
        lemma_first_with_title_is_first(active, title, from + 1);
    }
}

proof fn lemma_first_with_title_push(active: Seq<UserPromptView>, p: UserPromptView, from: int)
    requires
        0 <= from <= active.len(),
    ensures
        first_with_title(active.push(p), p.title, from) == if first_with_title(
            active,
            p.title,
            from,
        ) < active.len() {
            first_with_title(active, p.title, from)
        } else {
            active.len() as int
        },
    decreases active.len() - from,
{
    if from < active.len() {
        assert(active.push(p)[from] == active[from]);
        lemma_first_with_title_push(active, p, from + 1);
    } else {
        assert(active.push(p)[from] == p);
    }
}

/// Activating a prompt and then deactivating its title gives back the
/// active prompts as they were, where no active prompt had that title.
pub proof fn lemma_activate_then_deactivate(active: Seq<UserPromptView>, p: UserPromptView)
    requires
        first_with_title(active, p.title, 0) == active.len(),
    ensures
        first_with_title(active.push(p), p.title, 0) == active.len(),
        active.push(p).remove(active.len() as int) == active,
{
    lemma_first_with_title_push(active, p, 0);
    assert(active.push(p).remove(active.len() as int) =~= active);
}

proof fn lemma_inserted_all_prefix(m: Map<Seq<char>, UserPrompt>, ids1: Seq<String>, ids2: Seq<String>, all: Seq<UserPrompt>, k: int)
    requires
        0 <= k,
        k <= ids1.len(),
        k <= ids2.len(),
        forall|j: int| 0 <= j < k ==> ids1[j] == ids2[j],
    ensures
        inserted_all(m, ids1, all, k) == inserted_all(m, ids2, all, k),
    decreases k,
{
    if k > 0 {
        lemma_inserted_all_prefix(m, ids1, ids2, all, k - 1);
    }
}

} // verus!
