//! The sandboxed filesystem surface: append-only log files bound to paths
//! inside a host-controlled root. A host that grants no sandbox root
//! reports every open as failed; scripts must degrade gracefully. A file,
//! once opened, only ever grows at its end.

use vstd::prelude::*;

verus! {

/// One file inside the sandbox root.
pub struct SandboxFile {
    pub path: String,
    pub content: String,
}

/// Mathematical abstraction of [`SandboxFile`].
#[verifier::ext_equal]
pub struct FileModel {
    pub path: Seq<char>,
    pub content: Seq<char>,
}

impl View for SandboxFile {
    type V = FileModel;

    open spec fn view(&self) -> FileModel {
        FileModel { path: self.path@, content: self.content@ }
    }
}

impl DeepView for SandboxFile {
    type V = FileModel;

    open spec fn deep_view(&self) -> FileModel {
        self.view()
    }
}

/// Mathematical abstraction of [`Sandbox`].
#[verifier::ext_equal]
pub struct SandboxModel {
    pub available: bool,
    pub files: Seq<FileModel>,
}

impl SandboxModel {
    /// Well-formedness: no two files share a path.
    pub open spec fn wf(self) -> bool {
        forall|i: int, j: int|
            #![trigger self.files[i], self.files[j]]
            0 <= i < j < self.files.len() ==> self.files[i].path != self.files[j].path
    }
}

/// The first index whose file has path `path`, searching from `i` on;
/// `-1` if there is none.
pub open spec fn find_from(files: Seq<FileModel>, path: Seq<char>, i: int) -> int
    decreases files.len() - i
        when 0 <= i <= files.len()
{
    if i >= files.len() {
        -1
    } else if files[i].path == path {
        i
    } else {
        find_from(files, path, i + 1)
    }
}

/// The index of the file with path `path`, or `-1` if the sandbox holds none.
pub open spec fn find_file(files: Seq<FileModel>, path: Seq<char>) -> int {
    find_from(files, path, 0)
}

/// The sandbox after an open-for-append of `path`: unchanged if the
/// sandbox is unavailable or the file already exists (an existing file is
/// *not* truncated); otherwise the new, empty file is added at the end.
pub open spec fn sandbox_open(m: SandboxModel, path: Seq<char>) -> SandboxModel {
    if !m.available {
        m
    } else if find_file(m.files, path) >= 0 {
        m
    } else {
        SandboxModel {
            available: m.available,
            files: m.files.push(FileModel { path, content: Seq::<char>::empty() }),
        }
    }
}

/// The handle an open-for-append of `path` reports: `-1` when the sandbox
/// is unavailable, else the index of the (found or created) file.
pub open spec fn sandbox_open_handle(m: SandboxModel, path: Seq<char>) -> int {
    if !m.available {
        -1
    } else if find_file(m.files, path) >= 0 {
        find_file(m.files, path)
    } else {
        m.files.len() as int
    }
}

/// The sandbox after appending `text` to the file with handle `h`:
/// that file's content grows by exactly `text` at its end.
pub open spec fn sandbox_append(m: SandboxModel, h: int, text: Seq<char>) -> SandboxModel {
    SandboxModel {
        available: m.available,
        files: m.files.update(
            h,
            FileModel { path: m.files[h].path, content: m.files[h].content + text },
        ),
    }
}

/// What a search from `i` on finds: a valid index bearing the path with no
/// earlier match past `i`, or `-1` with no match at all past `i`.
pub proof fn lemma_find_from(files: Seq<FileModel>, path: Seq<char>, i: int)
    requires
        0 <= i <= files.len(),
    ensures
        find_from(files, path, i) == -1 ==> forall|j: int|
            i <= j < files.len() ==> files[j].path != path,
        find_from(files, path, i) != -1 ==> i <= find_from(files, path, i) < files.len()
            && files[find_from(files, path, i)].path == path,
    decreases files.len() - i,
{
    if i < files.len() && files[i].path != path {
        lemma_find_from(files, path, i + 1);
    }
}

/// The sandbox-restricted filesystem as one script process sees it.
pub struct Sandbox {
    available: bool,
    files: Vec<SandboxFile>,
}

impl View for Sandbox {
    type V = SandboxModel;

    closed spec fn view(&self) -> SandboxModel {
        SandboxModel { available: self.available, files: self.files.deep_view() }
    }
}

impl Sandbox {
    /// A fresh sandbox; `available` says whether the host granted a root
    /// directory at all.
    pub fn new(available: bool) -> (s: Sandbox)
        ensures
            s@.wf(),
            s@.available == available,
            s@.files == Seq::<FileModel>::empty(),
    {
        let s = Sandbox { available, files: Vec::new() };
        proof {
            assert(s@.files =~= Seq::<FileModel>::empty());
        }
        s
    }

    /// Open `path` for appending, creating the file empty if it does not
    /// exist and keeping its content untouched if it does. Returns `None`
    /// exactly when the host granted no sandbox root.
    pub fn open_append(&mut self, path: &str) -> (h: Option<usize>)
        requires
            old(self)@.wf(),
        ensures
            final(self)@.wf(),
            final(self)@ == sandbox_open(old(self)@, path@),
            h is None <==> !old(self)@.available,
            h matches Some(i) ==> i as int == sandbox_open_handle(old(self)@, path@) && (i as int)
                < final(self)@.files.len() && final(self)@.files[i as int].path == path@,
    {
        if !self.available {
            return None;
        }
        let needle = String::from_str(path);
        let n = self.files.len();
        let mut j: usize = 0;
        while j < n
            invariant
                n == self.files.len(),
                j <= n,
                needle@ == path@,
                self@ == old(self)@,
                old(self)@.wf(),
                old(self)@.available,
                find_from(self@.files, path@, 0) == find_from(self@.files, path@, j as int),
            decreases n - j,
        {
            proof {
                assert(self@.files[j as int] == self.files@[j as int]@);
            }
            if self.files[j].path.eq(&needle) {
                proof {
                    assert(needle@ == path@);
                    assert(self@.files[j as int].path == path@);
                    assert(find_from(self@.files, path@, j as int) == j as int);
                    assert(sandbox_open(self@, path@) =~= self@);
                }
                return Some(j);
            }
            j += 1;
        }
        proof {
            assert(find_from(self@.files, path@, n as int) == -1);
        }
        let ghost prev = self@;
        let file = SandboxFile { path: String::from_str(path), content: String::new() };
        self.files.push(file);
        proof {
            assert(self@.files =~= prev.files.push(
                FileModel { path: path@, content: Seq::<char>::empty() },
            ));
            assert(sandbox_open(prev, path@).files =~= self@.files);
            assert forall|a: int, b: int|
                #![trigger self@.files[a], self@.files[b]]
                0 <= a < b < self@.files.len() implies self@.files[a].path
                != self@.files[b].path by {
                if b == self@.files.len() - 1 {
                    lemma_find_from(prev.files, path@, 0);
                }
            }
        }
        Some(n)
    }

    /// Append `text` at the end of the open file `h`. The prior content is
    /// preserved as an unchanged prefix; no other file changes.
    pub fn append(&mut self, h: usize, text: &str)
        requires
            old(self)@.wf(),
            h < old(self)@.files.len(),
        ensures
            final(self)@.wf(),
            final(self)@ == sandbox_append(old(self)@, h as int, text@),
    {
        let ghost prev = self.files@;
        let ghost pre_dv = self.files.deep_view();
        {
            let f = &mut self.files[h];
            f.content.append(text);
        }
        proof {
            assert forall|j: int| 0 <= j < self@.files.len() implies #[trigger] self@.files[j]
                == sandbox_append(old(self)@, h as int, text@).files[j] by {
                assert(self@.files[j] == self.files@[j]@);
                assert(pre_dv[j] == prev[j]@);
                if j != h as int {
                    assert(self.files@[j] == prev[j]);
                }
            }
            assert(self@.files =~= sandbox_append(old(self)@, h as int, text@).files);
        }
    }

    /// Read the whole content of the open file `h`.
    pub fn content(&self, h: usize) -> (s: &String)
        requires
            h < self@.files.len(),
        ensures
            s@ == self@.files[h as int].content,
    {
        proof {
            assert(self@.files[h as int] == self.files@[h as int]@);
        }
        &self.files[h].content
    }

    /// How many files the sandbox holds.
    pub fn file_count(&self) -> (n: usize)
        ensures
            n == self@.files.len(),
    {
        self.files.len()
    }

    /// Whether the host granted a sandbox root.
    pub fn is_available(&self) -> (b: bool)
        ensures
            b == self@.available,
    {
        self.available
    }
}

/// The concatenation of a run of appended texts.
pub open spec fn concat_texts(texts: Seq<Seq<char>>) -> Seq<char>
    decreases texts.len(),
{
    if texts.len() == 0 {
        Seq::<char>::empty()
    } else {
        texts[0] + concat_texts(texts.drop_first())
    }
}

/// The sandbox after appending each of `texts`, in order, to file `h`.
pub open spec fn append_all(m: SandboxModel, h: int, texts: Seq<Seq<char>>) -> SandboxModel
    decreases texts.len(),
{
    if texts.len() == 0 {
        m
    } else {
        append_all(sandbox_append(m, h, texts[0]), h, texts.drop_first())
    }
}

/// A run of appends to file `h` adds exactly the concatenation of the
/// texts at the file's end and touches nothing else.
pub proof fn lemma_append_all(m: SandboxModel, h: int, texts: Seq<Seq<char>>)
    requires
        0 <= h < m.files.len(),
    ensures
        append_all(m, h, texts).available == m.available,
        append_all(m, h, texts).files.len() == m.files.len(),
        append_all(m, h, texts).files[h].path == m.files[h].path,
        append_all(m, h, texts).files[h].content == m.files[h].content + concat_texts(texts),
        forall|j: int|
            0 <= j < m.files.len() && j != h ==> append_all(m, h, texts).files[j]
                == #[trigger] m.files[j],
    decreases texts.len(),
{
    if texts.len() == 0 {
        assert(append_all(m, h, texts) == m);
        assert(m.files[h].content + concat_texts(texts) =~= m.files[h].content);
    } else {
        let m1 = sandbox_append(m, h, texts[0]);
        lemma_append_all(m1, h, texts.drop_first());
        assert(append_all(m, h, texts) == append_all(m1, h, texts.drop_first()));
        assert(m.files[h].content + concat_texts(texts) =~= (m.files[h].content + texts[0])
            + concat_texts(texts.drop_first()));
        assert forall|j: int|
            0 <= j < m.files.len() && j != h implies append_all(m, h, texts).files[j]
            == #[trigger] m.files[j] by {
            assert(append_all(m1, h, texts.drop_first()).files[j] == m1.files[j]);
            assert(m1.files[j] == m.files[j]);
        }
    }
}

/// The append-only round trip: open a log file, append some lines, reopen
/// it (as an unload/reload cycle does) and append more. The reopen changes
/// nothing, and the final content is the original content followed by the
/// first and then the second run of lines — every earlier line survives,
/// uncorrupted, as a prefix.
pub proof fn lemma_log_file_round_trip(
    m: SandboxModel,
    path: Seq<char>,
    texts1: Seq<Seq<char>>,
    texts2: Seq<Seq<char>>,
)
    requires
        m.wf(),
        m.available,
    ensures
        ({
            let m1 = sandbox_open(m, path);
            let h = sandbox_open_handle(m, path);
            let m2 = append_all(m1, h, texts1);
            let m3 = sandbox_open(m2, path);
            let m4 = append_all(m3, h, texts2);
            &&& m3 == m2
            &&& sandbox_open_handle(m2, path) == h
            &&& m4.files[h].content == m1.files[h].content + concat_texts(texts1) + concat_texts(
                texts2,
            )
            &&& m4.files[h].content.take(m1.files[h].content.len() + concat_texts(texts1).len() as int)
                == m1.files[h].content + concat_texts(texts1)
        }),
{
    let m1 = sandbox_open(m, path);
    let h = sandbox_open_handle(m, path);
    lemma_find_from(m.files, path, 0);
    assert(0 <= h < m1.files.len() && m1.files[h].path == path);
    let m2 = append_all(m1, h, texts1);
    lemma_append_all(m1, h, texts1);
    assert(find_file(m2.files, path) == h) by {
        lemma_find_from(m2.files, path, 0);
        let r = find_file(m2.files, path);
        if r == -1 {
            assert(m2.files[h].path != path);
        } else if r != h {
            assert(m1.files[r].path == m2.files[r].path);
            if find_file(m.files, path) >= 0 {
                assert(m.files[r].path == path && m.files[h].path == path);
            } else {
                if r < m.files.len() {
                    assert(m.files[r].path == path);
                }
            }
            assert(false);
        }
    }
    let m3 = sandbox_open(m2, path);
    assert(m3 == m2);
    let m4 = append_all(m3, h, texts2);
    lemma_append_all(m3, h, texts2);
    assert(m4.files[h].content =~= m1.files[h].content + concat_texts(texts1) + concat_texts(
        texts2,
    ));
    assert(m4.files[h].content.take(m1.files[h].content.len() + concat_texts(texts1).len() as int) =~= m1
        .files[h].content + concat_texts(texts1));
}

} // verus!
