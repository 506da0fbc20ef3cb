//! Unpacking a zip archive: the zip crate reads the entries from the
//! archive's bytes, and the library turns them into the directories and files
//! to create.

use vstd::prelude::*;
use vstd::string::*;

use crate::fs::{join_paths, parent_of, path_join, path_parent};

verus! {

#[verifier::external_type_specification]
#[verifier::external_body]
pub struct ExZipError(zip::result::ZipError);

/// What `ZipArchive::new` followed by `len` gives for an archive's bytes:
/// the number of entries, or `None` where the archive cannot be read.
pub uninterp spec fn zip_entry_count(bytes: Seq<u8>) -> Option<nat>;

/// The name of the entry at `index` of an archive's bytes, as
/// `ZipArchive::by_index` followed by `ZipFile::name` gives it, or `None`
/// where the archive or the entry cannot be opened.
pub uninterp spec fn zip_entry_name(bytes: Seq<u8>, index: nat) -> Option<Seq<char>>;

/// What reading the data of the entry at `index` of an archive's bytes to
/// the end gives: the bytes read, and whether the archive, the entry or the
/// read failed (a failed read keeps the bytes read before the failure).
pub uninterp spec fn zip_entry_data(bytes: Seq<u8>, index: nat) -> (Seq<u8>, bool);

/// Opens the archive in `bytes` with `zip::ZipArchive::new` and returns its
/// `len`. Claims that the result, or the failure, is `zip_entry_count(bytes)`.
#[verifier::external_body]
fn zip_len(bytes: &[u8]) -> (r: Result<usize, zip::result::ZipError>)
    ensures
        match r {
            Ok(n) => zip_entry_count(bytes@) == Some(n as nat),
            Err(_) => zip_entry_count(bytes@) is None,
        },
{
    Ok(zip::ZipArchive::new(std::io::Cursor::new(bytes))?.len())
}

/// Opens the archive in `bytes` with `zip::ZipArchive::new`, takes entry
/// `index` with `by_index`, and returns its `name`. Claims that the name, or
/// the failure, is `zip_entry_name(bytes, index)`.
#[verifier::external_body]
fn zip_name_at(bytes: &[u8], index: usize) -> (r: Result<String, zip::result::ZipError>)
    ensures
        match r {
            Ok(name) => zip_entry_name(bytes@, index as nat) == Some(name@),
            Err(_) => zip_entry_name(bytes@, index as nat) is None,
        },
{
    let mut archive = zip::ZipArchive::new(std::io::Cursor::new(bytes))?;
    let file = archive.by_index(index)?;
    Ok(file.name().to_string())
}

/// Opens the archive in `bytes` with `zip::ZipArchive::new`, takes entry
/// `index` with `by_index`, and reads its data with `Read::read_to_end`,
/// which keeps the bytes read before a failure; a failed read becomes
/// `ZipError::Io`. Claims that the bytes, and whether a step failed, are
/// `zip_entry_data(bytes, index)`.
#[verifier::external_body]
fn zip_data_at(bytes: &[u8], index: usize) -> (r: (Vec<u8>, Option<zip::result::ZipError>))
    ensures
        zip_entry_data(bytes@, index as nat) == (r.0@, r.1 is Some),
{
    let mut data: Vec<u8> = Vec::new();
    let failure = match zip::ZipArchive::new(std::io::Cursor::new(bytes)) {
        Ok(mut archive) => match archive.by_index(index) {
            Ok(mut file) => std::io::Read::read_to_end(&mut file, &mut data).err().map(zip::result::ZipError::from),
            Err(e) => Some(e),
        },
        Err(e) => Some(e),
    };
    (data, failure)
}

/// An entry names a directory where its name ends in `/` or `\`, as
/// `ZipFile::is_dir` decides.
pub open spec fn is_dir_name(name: Seq<char>) -> bool {
    name.len() > 0 && (name.last() == '/' || name.last() == '\\')
}

/// One step of unpacking.
pub enum ExtractStep {
    /// Create a directory and its missing parents.
    CreateDir(String),
    /// Write a file with the given content.
    WriteFile(String, Vec<u8>),
}

/// The mathematical content of an `ExtractStep`.
pub enum StepView {
    CreateDir(Seq<char>),
    WriteFile(Seq<char>, Seq<u8>),
}

/// The view of a list of steps.
pub open spec fn step_views(steps: Seq<ExtractStep>) -> Seq<StepView> {
    steps.map_values(
        |s: ExtractStep|
            match s {
                ExtractStep::CreateDir(p) => StepView::CreateDir(p@),
                ExtractStep::WriteFile(p, d) => StepView::WriteFile(p@, d@),
            },
    )
}

/// The steps that unpack one entry into `dest`: a directory entry is
/// created; a file entry gets its parent directory created, where the path
/// has a parent, and is then written.
pub open spec fn entry_steps(name: Seq<char>, data: Seq<u8>, dest: Seq<char>) -> Seq<StepView> {
    let out = path_join(dest, name);
    if is_dir_name(name) {
        seq![StepView::CreateDir(out)]
    } else {
        match path_parent(out) {
            Some(parent) => seq![StepView::CreateDir(parent), StepView::WriteFile(out, data)],
            None => seq![StepView::WriteFile(out, data)],
        }
    }
}

/// The data that unpacking reads for an entry: none for a directory, the
/// entry's data otherwise, with whether reading it failed.
pub open spec fn entry_data(bytes: Seq<u8>, i: nat, name: Seq<char>) -> (Seq<u8>, bool) {
    if is_dir_name(name) {
        (Seq::empty(), false)
    } else {
        zip_entry_data(bytes, i)
    }
}

/// The steps for the entries from `i` on, and whether an entry could not
/// be read. An entry that cannot be opened ends the unpacking before any
/// step of its own; a file whose data cannot be read is still created, with
/// its parent directory and the bytes read before the failure, and then
/// ends the unpacking.
pub open spec fn steps_from(bytes: Seq<u8>, dest: Seq<char>, n: nat, i: nat) -> (Seq<StepView>, bool)
    decreases n - i,
{
    if i >= n {
        (Seq::empty(), false)
    } else {
        match zip_entry_name(bytes, i) {
            None => (Seq::empty(), true),
            Some(name) => {
                let (data, failed) = entry_data(bytes, i, name);
                let here = entry_steps(name, data, dest);
                if failed {
                    (here, true)
                } else {
                    let rest = steps_from(bytes, dest, n, i + 1);
                    (here + rest.0, rest.1)
                }
            },
        }
    }
}

/// The unpacking of an archive into `dest`: the steps for its entries in
/// order, stopping before the first entry that cannot be read, and whether
/// the archive or an entry could not be read.
pub open spec fn unzip_plan(bytes: Seq<u8>, dest: Seq<char>) -> (Seq<StepView>, bool) {
    match zip_entry_count(bytes) {
        None => (Seq::empty(), true),
        Some(n) => steps_from(bytes, dest, n, 0),
    }
}

proof fn lemma_step_views_add(a: Seq<ExtractStep>, b: Seq<ExtractStep>)
    ensures
        step_views(a + b) == step_views(a) + step_views(b),
{
    assert(step_views(a + b) =~= step_views(a) + step_views(b));
}

proof fn lemma_contains_in_sum(s: Seq<StepView>, t: Seq<StepView>, x: StepView)
    ensures
        s.contains(x) ==> (s + t).contains(x),
        t.contains(x) ==> (s + t).contains(x),
{
    if s.contains(x) {
        let j = choose|j: int| 0 <= j < s.len() && s[j] == x;
        assert((s + t)[j] == x);
    }
    if t.contains(x) {
        let j = choose|j: int| 0 <= j < t.len() && t[j] == x;
        assert((s + t)[s.len() + j] == x);
    }
}

/// The step that unpacks entry `i` into `dest`: its directory for a
/// directory entry, the write of its data for a file.
pub open spec fn unpacking_step(bytes: Seq<u8>, dest: Seq<char>, i: nat) -> StepView {
    let name = zip_entry_name(bytes, i)->0;
    if is_dir_name(name) {
        StepView::CreateDir(path_join(dest, name))
    } else {
        StepView::WriteFile(path_join(dest, name), zip_entry_data(bytes, i).0)
    }
}

/// Entry `i` and every entry before it can be opened, and the data of every
/// entry before it is read without failure.
pub open spec fn reached(bytes: Seq<u8>, i: nat) -> bool {
    &&& forall|j: nat| j <= i ==> #[trigger] zip_entry_name(bytes, j) is Some
    &&& forall|j: nat| j < i ==> !entry_data(bytes, j, #[trigger] zip_entry_name(bytes, j)->0).1
}

proof fn lemma_steps_from_unpack(bytes: Seq<u8>, dest: Seq<char>, n: nat, k: nat, i: nat)
    requires
        k <= i < n,
        reached(bytes, i),
    ensures
        steps_from(bytes, dest, n, k).0.contains(unpacking_step(bytes, dest, i)),
    decreases i - k,
{
    let name = zip_entry_name(bytes, k)->0;
    assert(zip_entry_name(bytes, k) is Some);
    let (data, failed) = entry_data(bytes, k, name);
    let here = entry_steps(name, data, dest);
    let rest = steps_from(bytes, dest, n, k + 1);
    let x = unpacking_step(bytes, dest, i);
    if k == i {
        let last = here.len() - 1;
        assert(here[last] == x);
        assert(here.contains(x));
        lemma_contains_in_sum(here, rest.0, x);
    } else {
        assert(!entry_data(bytes, k, zip_entry_name(bytes, k)->0).1);
        lemma_steps_from_unpack(bytes, dest, n, k + 1, i);
        lemma_contains_in_sum(here, rest.0, x);
    }
}

/// Every entry up to the first one that fails is unpacked, whatever its
/// size: a directory entry is created at its place in `dest`, and a file
/// entry is written there with exactly the data read from it (which, for
/// the entry whose read fails, is what was read before the failure).
pub proof fn reached_entries_are_unpacked(bytes: Seq<u8>, dest: Seq<char>, i: nat)
    requires
        zip_entry_count(bytes) matches Some(n) && i < n,
        reached(bytes, i),
    ensures
        unzip_plan(bytes, dest).0.contains(unpacking_step(bytes, dest, i)),
{
    lemma_steps_from_unpack(bytes, dest, zip_entry_count(bytes)->0, 0, i);
}

proof fn lemma_steps_from_failure(bytes: Seq<u8>, dest: Seq<char>, n: nat, k: nat)
    requires
        k <= n,
    ensures
        !steps_from(bytes, dest, n, k).1 <==> forall|j: nat|
            k <= j < n ==> #[trigger] zip_entry_name(bytes, j) is Some && !entry_data(bytes, j, zip_entry_name(bytes, j)->0).1,
    decreases n - k,
{
    if k < n {
        lemma_steps_from_failure(bytes, dest, n, k + 1);
        assert(zip_entry_name(bytes, k) == zip_entry_name(bytes, k));
    }
}

/// Unpacking reports a failure exactly when the archive cannot be opened, or
/// one of its entries cannot be opened or read.
pub proof fn failure_is_reported_exactly(bytes: Seq<u8>, dest: Seq<char>)
    ensures
        !unzip_plan(bytes, dest).1 <==> (zip_entry_count(bytes) matches Some(n) && forall|j: nat|
            j < n ==> #[trigger] zip_entry_name(bytes, j) is Some && !entry_data(bytes, j, zip_entry_name(bytes, j)->0).1),
{
    if zip_entry_count(bytes) is Some {
        lemma_steps_from_failure(bytes, dest, zip_entry_count(bytes)->0, 0);
    }
}

fn push_step(v: &mut Vec<ExtractStep>, s: ExtractStep)
    ensures
        step_views(final(v)@) == step_views(old(v)@).push(
            match s {
                ExtractStep::CreateDir(p) => StepView::CreateDir(p@),
                ExtractStep::WriteFile(p, d) => StepView::WriteFile(p@, d@),
            },
        ),
{
    v.push(s);
    proof {
        let f = |s: ExtractStep|
            match s {
                ExtractStep::CreateDir(p) => StepView::CreateDir(p@),
                ExtractStep::WriteFile(p, d) => StepView::WriteFile(p@, d@),
            };
        assert(v@.map_values(f) =~= old(v)@.map_values(f).push(f(s)));
    }
}

/// Whether an entry named `name` is a directory.
pub fn is_dir_entry(name: &str) -> (r: bool)
    ensures
        r == is_dir_name(name@),
{
    let n_chars = name.unicode_len();
    n_chars > 0 && {
        let last = name.get_char(n_chars - 1);
        last == '/' || last == '\\'
    }
}

/// The steps that unpack one read entry, named `name` and holding `data`,
/// into `dest`.
pub fn entry_plan(name: &str, data: Vec<u8>, dest: &str) -> (r: Vec<ExtractStep>)
    ensures
        step_views(r@) == entry_steps(name@, data@, dest@),
{
    let mut steps: Vec<ExtractStep> = Vec::new();
    let out = join_paths(dest, name);
    if is_dir_entry(name) {
        push_step(&mut steps, ExtractStep::CreateDir(out));
    } else {
        match parent_of(out.as_str()) {
            Some(parent) => {
                push_step(&mut steps, ExtractStep::CreateDir(parent));
                push_step(&mut steps, ExtractStep::WriteFile(out, data));
            },
            None => {
                push_step(&mut steps, ExtractStep::WriteFile(out, data));
            },
        }
    }
    assert(step_views(steps@) =~= entry_steps(name@, data@, dest@));
    steps
}

/// Plans the unpacking of the archive in `bytes` into `dest`: the steps for
/// the entries, in order, up to the first entry that could not be read, and
/// the failure that stopped the reading, if any.
pub fn plan_unzip(bytes: &[u8], dest: &str) -> (r: (Vec<ExtractStep>, Option<zip::result::ZipError>))
    ensures
        step_views(r.0@) == unzip_plan(bytes@, dest@).0,
        r.1 is Some == unzip_plan(bytes@, dest@).1,
{
    let mut steps: Vec<ExtractStep> = Vec::new();
    let n = match zip_len(bytes) {
        Ok(n) => n,
        Err(e) => {
            assert(step_views(steps@) =~= Seq::<StepView>::empty());
            return (steps, Some(e));
        },
    };
    let mut i: usize = 0;
    assert(step_views(steps@) + steps_from(bytes@, dest@, n as nat, 0).0 =~= steps_from(bytes@, dest@, n as nat, 0).0);
    while i < n
        invariant
            i <= n,
            zip_entry_count(bytes@) == Some(n as nat),
            unzip_plan(bytes@, dest@).0 == step_views(steps@) + steps_from(bytes@, dest@, n as nat, i as nat).0,
            unzip_plan(bytes@, dest@).1 == steps_from(bytes@, dest@, n as nat, i as nat).1,
        decreases n - i,
    {
        let ghost before = step_views(steps@);
        let ghost rest = steps_from(bytes@, dest@, n as nat, (i + 1) as nat);
        let name = match zip_name_at(bytes, i) {
            Ok(name) => name,
            Err(e) => {
                assert(before + Seq::<StepView>::empty() =~= before);
                return (steps, Some(e));
            },
        };
        let (data, failure) = if is_dir_entry(name.as_str()) {
            (Vec::new(), None)
        } else {
            zip_data_at(bytes, i)
        };
        assert((data@, failure is Some) == entry_data(bytes@, i as nat, name@));
        let ghost here = entry_steps(name@, data@, dest@);
        let mut more = entry_plan(name.as_str(), data, dest);
        proof {
            lemma_step_views_add(steps@, more@);
        }
        steps.append(&mut more);
        if failure.is_some() {
            assert(before + here + Seq::<StepView>::empty() =~= before + here);
            return (steps, failure);
        }
        assert(before + (here + rest.0) =~= step_views(steps@) + rest.0);
        i += 1;
    }
    assert(step_views(steps@) + Seq::<StepView>::empty() =~= step_views(steps@));
    (steps, None)
}

} // verus!
