use vstd::prelude::*;
use crate::naming::{
    decimal, lemma_adhoc_names_distinct, lemma_decimal_shape, target_name_spec, RecordingTarget, MAIN_RECORDING_FILE_NAME,
    WAV_EXTENSION,
};

verus! {

/// One entry of the save directory, as the directory lister saw it.
pub struct RecordingEntry {
    pub name: String,
    pub path: std::path::PathBuf,
    pub is_file: bool,
}

/// A discrete recording offered to the user: its display name and its path.
pub struct AcapFile {
    pub name: String,
    pub path: std::path::PathBuf,
}

/// A file name whose extension is `wav`: a non-empty stem followed by `.wav`.
pub open spec fn has_wav_extension(name: Seq<char>) -> bool {
    name.len() > WAV_EXTENSION@.len() && name.subrange(
        name.len() - WAV_EXTENSION@.len(),
        name.len() as int,
    ) == WAV_EXTENSION@
}

/// Whether a directory entry is listed as a discrete recording: a file with
/// the `wav` extension that is not the main recording.
pub open spec fn is_listed(name: Seq<char>, is_file: bool) -> bool {
    is_file && name != MAIN_RECORDING_FILE_NAME@ && has_wav_extension(name)
}

/// The recordings listed from a sequence of entries, in the entries' order.
pub open spec fn listed(entries: Seq<RecordingEntry>) -> Seq<(Seq<char>, std::path::PathBuf)>
    decreases entries.len(),
{
    if entries.len() == 0 {
        Seq::empty()
    } else {
        let rest = listed(entries.drop_last());
        let e = entries.last();
        if is_listed(e.name@, e.is_file) {
            rest.push((e.name@, e.path))
        } else {
            rest
        }
    }
}

pub open spec fn acap_file_view(f: AcapFile) -> (Seq<char>, std::path::PathBuf) {
    (f.name@, f.path)
}

/// Whether a file name has the `wav` extension.
pub fn has_wav_ext(name: &str) -> (r: bool)
    ensures
        r == has_wav_extension(name@),
{
    proof {
        reveal_strlit(".wav");
    }
    let n: usize = name.unicode_len();
    if n <= 4 {
        return false;
    }
    let r = name.get_char(n - 4) == '.' && name.get_char(n - 3) == 'w' && name.get_char(n - 2)
        == 'a' && name.get_char(n - 1) == 'v';
    assert(r ==> name@.subrange(n - 4, n as int) =~= WAV_EXTENSION@);
    assert(name@.subrange(n - 4, n as int) == WAV_EXTENSION@ ==> {
        &&& name@.subrange(n - 4, n as int)[0] == name@[n - 4]
        &&& name@.subrange(n - 4, n as int)[1] == name@[n - 3]
        &&& name@.subrange(n - 4, n as int)[2] == name@[n - 2]
        &&& name@.subrange(n - 4, n as int)[3] == name@[n - 1]
    });
    r
}

/// Whether an entry of the save directory is listed as a discrete recording.
pub fn is_listed_recording(name: &String, is_file: bool) -> (r: bool)
    ensures
        r == is_listed(name@, is_file),
{
    let main = String::from_str(MAIN_RECORDING_FILE_NAME);
    is_file && !(*name == main) && has_wav_ext(name.as_str())
}

/// Selects the discrete recordings among the entries of the save directory:
/// the files with the `wav` extension, without the main recording, in the
/// order in which they were enumerated.
pub fn select_recordings(entries: Vec<RecordingEntry>) -> (r: Vec<AcapFile>)
    ensures
        r@.map_values(|f: AcapFile| acap_file_view(f)) == listed(entries@),
{
    let ghost all = entries@;
    let total: usize = entries.len();
    let mut rest = entries;
    let mut out: Vec<AcapFile> = Vec::new();
    let mut i: usize = 0;
    while rest.len() > 0
        invariant
            i <= all.len(),
            rest@ == all.skip(i as int),
            i + rest@.len() == all.len(),
            all.len() == total,
            out@.map_values(|f: AcapFile| acap_file_view(f)) == listed(all.take(i as int)),
        decreases rest@.len(),
    {
        let e = rest.remove(0);
        proof {
            assert(all.take(i as int + 1).drop_last() == all.take(i as int));
            assert(all.take(i as int + 1).last() == e);
        }
        if is_listed_recording(&e.name, e.is_file) {
            out.push(AcapFile { name: e.name, path: e.path });
            assert(out@.map_values(|f: AcapFile| acap_file_view(f)) =~= listed(all.take(i as int + 1)));
        }
        i = i + 1;
        assert(rest@ =~= all.skip(i as int));
    }
    assert(all.take(i as int) =~= all);
    out
}

/// The listing holds exactly the entries that are files with the `wav`
/// extension other than the main recording: a pair is listed if and only if
/// some such entry has that name and path, whatever the enumeration order.
pub proof fn lemma_listed_members(entries: Seq<RecordingEntry>, name: Seq<char>, path: std::path::PathBuf)
    ensures
        listed(entries).contains((name, path)) <==> exists|i: int|
            0 <= i < entries.len() && is_listed(#[trigger] entries[i].name@, entries[i].is_file)
                && entries[i].name@ == name && entries[i].path == path,
    decreases entries.len(),
{
    if entries.len() > 0 {
        let init = entries.drop_last();
        lemma_listed_members(init, name, path);
        let rest = listed(init);
        if listed(entries).contains((name, path)) {
            let k = choose|k: int| 0 <= k < listed(entries).len() && listed(entries)[k] == (name, path);
            if k < rest.len() {
                assert(rest[k] == (name, path));
                let i = choose|i: int|
                    0 <= i < init.len() && is_listed(#[trigger] init[i].name@, init[i].is_file)
                        && init[i].name@ == name && init[i].path == path;
                assert(entries[i] == init[i]);
            } else {
                let i = entries.len() - 1;
                assert(is_listed(entries[i].name@, entries[i].is_file));
            }
        }
        if exists|i: int|
            0 <= i < entries.len() && is_listed(#[trigger] entries[i].name@, entries[i].is_file)
                && entries[i].name@ == name && entries[i].path == path {
            let i = choose|i: int|
                0 <= i < entries.len() && is_listed(#[trigger] entries[i].name@, entries[i].is_file)
                    && entries[i].name@ == name && entries[i].path == path;
            if i < init.len() {
                assert(init[i] == entries[i]);
                assert(rest.contains((name, path)));
                let k = choose|k: int| 0 <= k < rest.len() && rest[k] == (name, path);
                assert(listed(entries)[k] == (name, path));
            } else {
                assert(listed(entries).last() == (name, path));
                assert(listed(entries)[listed(entries).len() - 1] == (name, path));
            }
        }
    }
}

/// Every ad-hoc recording file is listed, and the main recording never is.
pub proof fn lemma_listing_of_targets(secs: u64, is_file: bool)
    ensures
        is_listed(target_name_spec(RecordingTarget::AdHoc(secs)), true),
        !is_listed(target_name_spec(RecordingTarget::Main), is_file),
{
    reveal_strlit(".wav");
    lemma_adhoc_names_distinct(secs, secs);
    let d = decimal(secs as nat);
    let name = target_name_spec(RecordingTarget::AdHoc(secs));
    lemma_decimal_shape(secs as nat);
    assert(name.subrange(name.len() - 4, name.len() as int) =~= WAV_EXTENSION@);
}

} // verus!
