//! Calibration data kept up to date from a remote store: where it lives, the
//! manifest of its files and what an update does with each file.

use vstd::prelude::*;
use vstd::string::*;
use crate::util::{concat_str, seq_join, to_owned_string};

verus! {

/// The default remote root of the calibration data.
pub const CALIBRATION_FILE_REMOTE_ROOT: &'static str =
    "https://raw.githubusercontent.com/kmgill/mars-raw-utils-data/main/caldata/";

/// The directory that calibration data is saved to: the one asked for, else
/// the `MARS_RAW_DATA` directory, else `.marsdata` under the home directory.
/// Whether the directory exists or can be written is not looked at.
pub open spec fn local_store(
    use_local_store: Option<Seq<char>>,
    env_data_dir: Option<Seq<char>>,
    home_dir: Option<Seq<char>>,
) -> Seq<char>
    recommends
        use_local_store is Some || env_data_dir is Some || home_dir is Some,
{
    match use_local_store {
        Some(s) => s,
        None => match env_data_dir {
            Some(d) => d,
            None => home_dir->0 + "/.marsdata"@,
        },
    }
}

pub open spec fn opt_view(o: Option<String>) -> Option<Seq<char>> {
    match o {
        Some(s) => Some(s@),
        None => None,
    }
}

/// Picks the directory that calibration data is saved to. At least one of
/// the three must be known: with none of them there is nowhere to put the
/// data.
pub fn calibration_local_store(
    use_local_store: &Option<String>,
    env_data_dir: &Option<String>,
    home_dir: &Option<String>,
) -> (r: String)
    requires
        use_local_store is Some || env_data_dir is Some || home_dir is Some,
    ensures
        r@ == local_store(opt_view(*use_local_store), opt_view(*env_data_dir), opt_view(*home_dir)),
{
    match use_local_store {
        Some(s) => s.clone(),
        None => match env_data_dir {
            Some(d) => d.clone(),
            None => match home_dir {
                Some(h) => concat_str(h.as_str(), "/.marsdata"),
                None => {
                    assert(false);
                    String::new()
                },
            },
        },
    }
}

/// The remote root of the calibration data: the configured one, else the default.
pub fn calibration_remote_root(configured: &Option<String>) -> (r: String)
    ensures
        r@ == match *configured {
            Some(c) => c@,
            None => CALIBRATION_FILE_REMOTE_ROOT@,
        },
{
    match configured {
        Some(c) => c.clone(),
        None => to_owned_string(CALIBRATION_FILE_REMOTE_ROOT),
    }
}

/// What `url::Url::parse(base)` and then `join(relative)` give, serialised;
/// `None` when either fails.
pub uninterp spec fn url_join_of(base: Seq<char>, relative: Seq<char>) -> Option<Seq<char>>;

/// Resolves `relative` against the URL `base` with `url::Url::parse` and
/// `url::Url::join`, and serialises the result. Trusted: the result is the
/// named `url_join_of` of the two arguments, and `None` exactly where that
/// name is `None`.
#[verifier::external_body]
fn join_url(base: &str, relative: &str) -> (r: Option<String>)
    ensures
        opt_view(r) == url_join_of(base@, relative@),
{
    match url::Url::parse(base) {
        Ok(b) => match b.join(relative) {
            Ok(j) => Some(j.to_string()),
            Err(_) => None,
        },
        Err(_) => None,
    }
}

/// The URL of a calibration file under the remote root; `None` when the root
/// is not a URL or the file's path cannot be joined to it.
pub fn calibration_file_remote_url(root: &str, remote_file_uri: &str) -> (r: Option<String>)
    ensures
        opt_view(r) == url_join_of(root@, remote_file_uri@),
{
    join_url(root, remote_file_uri)
}

/// `line` without one final carriage return.
pub open spec fn strip_cr(line: Seq<char>) -> Seq<char> {
    if line.len() > 0 && line.last() == '\r' {
        line.drop_last()
    } else {
        line
    }
}

/// The lines completed so far in `s`, and the text after the last line feed.
pub open spec fn line_fold(s: Seq<char>) -> (Seq<Seq<char>>, Seq<char>)
    decreases s.len(),
{
    if s.len() == 0 {
        (seq![], seq![])
    } else {
        let prev = line_fold(s.drop_last());
        if s.last() == '\n' {
            (prev.0.push(strip_cr(prev.1)), seq![])
        } else {
            (prev.0, prev.1.push(s.last()))
        }
    }
}

/// The lines of `s` as `str::lines` gives them: split at each line feed, a
/// carriage return before a line feed dropped, and no empty line after a
/// final line feed.
pub open spec fn lines_of(s: Seq<char>) -> Seq<Seq<char>> {
    let f = line_fold(s);
    if f.1.len() > 0 {
        f.0.push(f.1)
    } else {
        f.0
    }
}

/// Splits the manifest into its file names, one per line.
pub fn parse_manifest_file_list(data: &str) -> (r: Vec<String>)
    ensures
        r@.map_values(|l: String| l@) == lines_of(data@),
{
    let n = data.unicode_len();
    let mut out: Vec<String> = Vec::new();
    let mut start: usize = 0;
    let mut i: usize = 0;
    while i < n
        invariant
            n == data@.len(),
            start <= i <= n,
            out@.map_values(|l: String| l@) == line_fold(data@.take(i as int)).0,
            data@.subrange(start as int, i as int) == line_fold(data@.take(i as int)).1,
        decreases n - i,
    {
        let c = data.get_char(i);
        proof {
            assert(data@.take(i + 1).drop_last() =~= data@.take(i as int));
            assert(data@.take(i + 1).last() == data@[i as int]);
        }
        if c == '\n' {
            let end: usize = if i > start && data.get_char(i - 1) == '\r' {
                i - 1
            } else {
                i
            };
            let line = to_owned_string(data.substring_char(start, end));
            let ghost prev = out@.map_values(|l: String| l@);
            proof {
                let cur = data@.subrange(start as int, i as int);
                assert(line@ =~= strip_cr(cur));
            }
            out.push(line);
            proof {
                assert(out@.map_values(|l: String| l@) =~= prev.push(line@));
                assert(data@.subrange((i + 1) as int, (i + 1) as int) =~= Seq::<char>::empty());
            }
            start = i + 1;
        } else {
            proof {
                assert(data@.subrange(start as int, i + 1) =~= data@.subrange(
                    start as int,
                    i as int,
                ).push(data@[i as int]));
            }
        }
        i = i + 1;
    }
    proof {
        assert(data@.take(n as int) =~= data@);
    }
    if start < n {
        let last = to_owned_string(data.substring_char(start, n));
        let ghost prev = out@.map_values(|l: String| l@);
        out.push(last);
        proof {
            assert(out@.map_values(|l: String| l@) =~= prev.push(last@));
        }
    } else {
        proof {
            assert(data@.subrange(start as int, n as int).len() == 0);
        }
    }
    out
}

/// Text without a line feed extends the last, unfinished line.
proof fn lemma_fold_extend(s: Seq<char>, w: Seq<char>)
    requires
        !w.contains('\n'),
    ensures
        line_fold(s + w) == (line_fold(s).0, line_fold(s).1 + w),
    decreases w.len(),
{
    if w.len() == 0 {
        assert(s + w =~= s);
        assert(line_fold(s).1 + w =~= line_fold(s).1);
    } else {
        let wd = w.drop_last();
        assert((s + w).drop_last() =~= s + wd);
        assert((s + w).last() == w.last());
        assert(!wd.contains('\n')) by {
            if wd.contains('\n') {
                let k = choose|k: int| 0 <= k < wd.len() && wd[k] == '\n';
                assert(w[k] == '\n');
            }
        }
        assert(w[w.len() - 1] == w.last());
        lemma_fold_extend(s, wd);
        assert(line_fold(s).1 + wd + seq![w.last()] =~= line_fold(s).1 + w);
    }
}

/// File names joined one per line fold to all but the last name completed,
/// and the last name pending.
proof fn lemma_fold_joined(names: Seq<Seq<char>>)
    requires
        names.len() > 0,
        forall|i: int|
            0 <= i < names.len() ==> !(#[trigger] names[i]).contains('\n') && !names[i].contains(
                '\r',
            ),
    ensures
        line_fold(seq_join(names, "\n"@)) == (names.drop_last(), names.last()),
    decreases names.len(),
{
    reveal_strlit("\n");
    if names.len() == 1 {
        assert(names[0] == names.last());
        lemma_fold_extend(seq![], names[0]);
        assert(Seq::<char>::empty() + names[0] =~= names[0]);
        assert(names.drop_last() =~= Seq::<Seq<char>>::empty());
        assert(Seq::<char>::empty() + names[0] =~= names[0]);
    } else {
        let dl = names.drop_last();
        assert forall|i: int| 0 <= i < dl.len() implies !(#[trigger] dl[i]).contains('\n')
            && !dl[i].contains('\r') by {
            assert(dl[i] == names[i]);
        }
        lemma_fold_joined(dl);
        let j = seq_join(dl, "\n"@);
        let jn = j + "\n"@;
        assert(jn.drop_last() =~= j);
        assert(jn.last() == '\n');
        let pending = dl.last();
        assert(pending == names[names.len() - 2]);
        assert(!names[names.len() - 2].contains('\r'));
        if pending.len() > 0 {
            assert(pending[pending.len() - 1] == pending.last());
        }
        assert(strip_cr(pending) == pending);
        assert(dl.drop_last().push(pending) =~= dl);
        assert(names[names.len() - 1] == names.last());
        lemma_fold_extend(jn, names.last());
        assert(line_fold(jn).1 + names.last() =~= names.last());
    }
}

/// File names without line breaks, written one per line, read back from the
/// manifest as the same names in the same order.
pub proof fn manifest_lines_round_trip(names: Seq<Seq<char>>)
    requires
        forall|i: int|
            0 <= i < names.len() ==> (#[trigger] names[i]).len() > 0 && !names[i].contains('\n')
                && !names[i].contains('\r'),
    ensures
        lines_of(seq_join(names, "\n"@)) == names,
{
    if names.len() == 0 {
        assert(line_fold(Seq::<char>::empty()) == (Seq::<Seq<char>>::empty(), Seq::<char>::empty()));
    } else {
        lemma_fold_joined(names);
        assert(names[names.len() - 1] == names.last());
        assert(names.drop_last().push(names.last()) =~= names);
    }
}

/// How a calibration file was saved.
#[derive(Clone, Copy, Debug, PartialEq, Eq, Structural)]
pub enum SaveResult {
    NotReplaced,
    Replaced,
    IsNew,
}

/// The result of saving a file without fetching it, when no fetch is due: a
/// file already on disk is kept unless replacing was asked for.
pub fn save_without_fetching(exists: bool, replace: bool) -> (r: Option<SaveResult>)
    ensures
        r == (if exists && !replace {
            Some(SaveResult::NotReplaced)
        } else {
            None
        }),
{
    if exists && !replace {
        Some(SaveResult::NotReplaced)
    } else {
        None
    }
}

/// The result of saving a fetched file: a replacement when a file was there.
pub fn saved_after_fetch(existed: bool) -> (r: SaveResult)
    ensures
        r == (if existed {
            SaveResult::Replaced
        } else {
            SaveResult::IsNew
        }),
{
    if existed {
        SaveResult::Replaced
    } else {
        SaveResult::IsNew
    }
}

/// The result of an update from the outcomes of its files, in order: the
/// first failure, or success when every file was saved.
pub fn update_outcome(outcomes: &Vec<Result<SaveResult, String>>) -> (r: Result<(), String>)
    ensures
        match r {
            Ok(_) => forall|i: int| 0 <= i < outcomes@.len() ==> outcomes@[i] is Ok,
            Err(e) => exists|i: int|
                #![trigger outcomes@[i]]
                0 <= i < outcomes@.len() && (forall|j: int| 0 <= j < i ==> outcomes@[j] is Ok)
                    && (outcomes@[i] matches Err(m) && m@ == e@),
        },
{
    let n = outcomes.len();
    for i in 0..n
        invariant
            n == outcomes@.len(),
            forall|j: int| 0 <= j < i ==> outcomes@[j] is Ok,
    {
        match &outcomes[i] {
            Ok(_) => {},
            Err(e) => {
                return Err(e.clone());
            },
        }
    }
    Ok(())
}

} // verus!
