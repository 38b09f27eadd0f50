use vstd::prelude::*;

use crate::config::AppConfig;
use crate::errors::{create_image_count_mismatch_error, IVCError};
use crate::text::{
    chars_equal, chars_of, find_last, last_index_of, lemma_last_index_within_bounds,
    lemma_lex_lt_irreflexive, lemma_lex_lt_total, lemma_lex_lt_transitive, lex_less, lex_lt,
};

verus! {

/// The characters of each string.
pub open spec fn views(v: Seq<String>) -> Seq<Seq<char>> {
    v.map_values(|s: String| s@)
}

/// The last component of a `/`-separated path.
pub open spec fn file_name(path: Seq<char>) -> Seq<char> {
    path.subrange(last_index_of(path, '/') + 1, path.len() as int)
}

/// The extension of a file name: what follows its last `.`, where that dot is not the
/// name's first character; `..` has none.
pub open spec fn extension(name: Seq<char>) -> Option<Seq<char>> {
    let dot = last_index_of(name, '.');
    if dot <= 0 || name == seq!['.', '.'] {
        None
    } else {
        Some(name.subrange(dot + 1, name.len() as int))
    }
}

/// Whether the file at `path` has exactly the extension `ext` (case-sensitive, no dot).
pub open spec fn has_extension(path: Seq<char>, ext: Seq<char>) -> bool {
    extension(file_name(path)) == Some(ext)
}

/// Every element comes strictly before every later one.
pub open spec fn strictly_sorted(v: Seq<Seq<char>>) -> bool {
    forall|a: int, b: int| 0 <= a < b < v.len() ==> lex_lt(#[trigger] v[a], #[trigger] v[b])
}

/// Whether `s` is one of the first `n` paths and has the extension `ext`.
pub open spec fn selected_among(paths: Seq<Seq<char>>, ext: Seq<char>, n: int, s: Seq<char>) -> bool {
    exists|j: int| 0 <= j < n && #[trigger] paths[j] == s && has_extension(s, ext)
}

/// The distinct paths among `paths` whose extension is exactly `ext`.
pub open spec fn selected_set(paths: Seq<String>, ext: Seq<char>) -> Set<Seq<char>> {
    Set::new(|s: Seq<char>| selected_among(views(paths), ext, paths.len() as int, s))
}

/// Whether the file at `path` has exactly the extension `ext`.
pub fn path_has_extension(path: &Vec<char>, ext: &Vec<char>) -> (r: bool)
    ensures
        r == has_extension(path@, ext@),
{
    let ghost p = path@;
    let length = path.len();
    proof {
        lemma_last_index_within_bounds(p, '/', p.len() as int);
    }
    let start = match find_last(path, '/') {
        Some(i) => i + 1,
        None => 0,
    };
    let mut name: Vec<char> = Vec::new();
    let mut i = start;
    while i < length
        invariant
            length == p.len(),
            start <= i <= p.len(),
            p == path@,
            name@ == p.subrange(start as int, i as int),
        decreases p.len() - i,
    {
        name.push(path[i]);
        i = i + 1;
    }
    assert(name@ == file_name(p));
    let ghost n = name@;
    proof {
        lemma_last_index_within_bounds(n, '.', n.len() as int);
    }
    let dot = match find_last(&name, '.') {
        Some(d) => d,
        None => {
            return false;
        },
    };
    if dot == 0 {
        return false;
    }
    if name.len() == 2 && name[0] == '.' && name[1] == '.' {
        assert(n =~= seq!['.', '.']);
        return false;
    }
    assert(n != seq!['.', '.']) by {
        if n == seq!['.', '.'] {
            assert(n.len() == 2 && n[0] == '.' && n[1] == '.');
        }
    }
    let mut found: Vec<char> = Vec::new();
    let mut k = dot + 1;
    while k < name.len()
        invariant
            dot + 1 <= k <= n.len(),
            n == name@,
            found@ == n.subrange(dot + 1, k as int),
        decreases n.len() - k,
    {
        found.push(name[k]);
        k = k + 1;
    }
    chars_equal(&found, ext)
}

/// The files among `paths` whose extension is exactly `desired_ext`, sorted lexicographically,
/// each once.
pub fn select_files(paths: &Vec<String>, desired_ext: &str) -> (r: Vec<String>)
    ensures
        strictly_sorted(views(r@)),
        views(r@).no_duplicates(),
        forall|k: int| 0 <= k < r@.len() ==> has_extension(#[trigger] r@[k]@, desired_ext@),
        views(r@).to_set() == selected_set(paths@, desired_ext@),
        r@.len() == selected_set(paths@, desired_ext@).len(),
{
    let ext = chars_of(desired_ext);
    let ghost pv = views(paths@);
    let mut sorted: Vec<String> = Vec::new();
    let mut keys: Vec<Vec<char>> = Vec::new();
    let mut i: usize = 0;
    while i < paths.len()
        invariant
            i <= paths@.len(),
            pv == views(paths@),
            ext@ == desired_ext@,
            keys@.len() == sorted@.len(),
            forall|k: int| 0 <= k < keys@.len() ==> #[trigger] keys@[k]@ == sorted@[k]@,
            strictly_sorted(views(sorted@)),
            forall|s: Seq<char>| #[trigger]
                views(sorted@).contains(s) <==> selected_among(pv, ext@, i as int, s),
        decreases paths@.len() - i,
    {
        let path = chars_of(paths[i].as_str());
        let ghost x = path@;
        assert(x == pv[i as int]);
        if path_has_extension(&path, &ext) {
            let ghost old_view = views(sorted@);
            let mut p: usize = 0;
            while p < keys.len() && lex_less(&keys[p], &path)
                invariant
                    p <= keys@.len(),
                    keys@.len() == sorted@.len(),
                    forall|k: int| 0 <= k < keys@.len() ==> #[trigger] keys@[k]@ == sorted@[k]@,
                    forall|k: int| 0 <= k < p ==> lex_lt(#[trigger] keys@[k]@, x),
                    x == path@,
                decreases keys@.len() - p,
            {
                p = p + 1;
            }
            let present = p < keys.len() && chars_equal(&keys[p], &path);
            if present {
                assert(old_view[p as int] == x);
                assert forall|s: Seq<char>| #[trigger]
                    views(sorted@).contains(s) <==> selected_among(pv, ext@, i + 1, s) by {
                    if selected_among(pv, ext@, i + 1, s) {
                        let j = choose|j: int| 0 <= j < i + 1 && #[trigger] pv[j] == s && has_extension(s, ext@);
                        if j == i {
                            assert(old_view.contains(s));
                        } else {
                            assert(selected_among(pv, ext@, i as int, s));
                        }
                    }
                    if views(sorted@).contains(s) {
                        assert(selected_among(pv, ext@, i as int, s));
                        let j = choose|j: int| 0 <= j < i && #[trigger] pv[j] == s && has_extension(s, ext@);
                        assert(0 <= j < i + 1 && pv[j] == s && has_extension(s, ext@));
                    }
                }
            } else {
                if p < keys.len() {
                    proof {
                        lemma_lex_lt_total(x, keys@[p as int]@);
                    }
                    assert(lex_lt(x, old_view[p as int]));
                }
                let s_new = paths[i].clone();
                sorted.insert(p, s_new);
                keys.insert(p, path);
                let ghost new_view = views(sorted@);
                assert(new_view =~= old_view.insert(p as int, x));
                assert forall|a: int, b: int| 0 <= a < b < new_view.len() implies lex_lt(
                    #[trigger] new_view[a],
                    #[trigger] new_view[b],
                ) by {
                    if b < p {
                        assert(lex_lt(old_view[a], old_view[b]));
                    } else if b == p {
                        assert(keys@[a]@ == sorted@[a]@);
                    } else if a == p {
                        if b - 1 > p {
                            assert(lex_lt(old_view[p as int], old_view[b - 1]));
                            lemma_lex_lt_transitive(x, old_view[p as int], old_view[b - 1]);
                        }
                    } else if a < p {
                        assert(lex_lt(old_view[a], old_view[b - 1]));
                    } else {
                        assert(lex_lt(old_view[a - 1], old_view[b - 1]));
                    }
                }
                assert forall|s: Seq<char>| #[trigger]
                    new_view.contains(s) <==> selected_among(pv, ext@, i + 1, s) by {
                    if selected_among(pv, ext@, i + 1, s) {
                        let j = choose|j: int| 0 <= j < i + 1 && #[trigger] pv[j] == s && has_extension(s, ext@);
                        if j == i {
                            assert(new_view[p as int] == s);
                        } else {
                            assert(selected_among(pv, ext@, i as int, s));
                            assert(old_view.contains(s));
                            let k = choose|k: int| 0 <= k < old_view.len() && old_view[k] == s;
                            if k < p {
                                assert(new_view[k] == s);
                            } else {
                                assert(new_view[k + 1] == s);
                            }
                        }
                    }
                    if new_view.contains(s) {
                        let k = choose|k: int| 0 <= k < new_view.len() && new_view[k] == s;
                        if k == p {
                            assert(0 <= i < i + 1 && pv[i as int] == s && has_extension(s, ext@));
                        } else {
                            if k < p {
                                assert(old_view[k] == s);
                            } else {
                                assert(old_view[k - 1] == s);
                            }
                            assert(old_view.contains(s));
                            let j = choose|j: int| 0 <= j < i && #[trigger] pv[j] == s && has_extension(s, ext@);
                            assert(0 <= j < i + 1 && pv[j] == s && has_extension(s, ext@));
                        }
                    }
                }
            }
        } else {
            assert forall|s: Seq<char>| #[trigger]
                views(sorted@).contains(s) <==> selected_among(pv, ext@, i + 1, s) by {
                if selected_among(pv, ext@, i + 1, s) {
                    let j = choose|j: int| 0 <= j < i + 1 && #[trigger] pv[j] == s && has_extension(s, ext@);
                    assert(j != i);
                    assert(selected_among(pv, ext@, i as int, s));
                }
                if views(sorted@).contains(s) {
                    let j = choose|j: int| 0 <= j < i && #[trigger] pv[j] == s && has_extension(s, ext@);
                    assert(0 <= j < i + 1 && pv[j] == s && has_extension(s, ext@));
                }
            }
        }
        i = i + 1;
    }
    let ghost v = views(sorted@);
    assert(v.to_set() =~= selected_set(paths@, desired_ext@));
    assert(v.no_duplicates()) by {
        assert forall|a: int, b: int| 0 <= a < v.len() && 0 <= b < v.len() && a != b implies v[a]
            != v[b] by {
            lemma_lex_lt_irreflexive(v[a]);
            if a > b {
                assert(lex_lt(v[b], v[a]));
            } else {
                assert(lex_lt(v[a], v[b]));
            }
        }
    }
    proof {
        v.unique_seq_to_set();
    }
    assert forall|k: int| 0 <= k < sorted@.len() implies has_extension(
        #[trigger] sorted@[k]@,
        desired_ext@,
    ) by {
        assert(v[k] == sorted@[k]@);
        assert(v.contains(v[k]));
    }
    sorted
}

/// The images of both trees, given every path that a walk of each tree found: the files with
/// the configured extension, sorted, when both trees hold equally many of them, and otherwise
/// the error that gives both counts.
pub fn get_files_if_directories_match_in_file_count(
    config: &AppConfig,
    original_paths: &Vec<String>,
    latest_paths: &Vec<String>,
) -> (r: Result<(Vec<String>, Vec<String>), IVCError>)
    ensures
        ({
            let found_original = selected_set(original_paths@, config.image_extension@);
            let found_latest = selected_set(latest_paths@, config.image_extension@);
            &&& r is Ok <==> found_original.len() == found_latest.len()
            &&& r matches Ok((o, l)) ==> {
                &&& strictly_sorted(views(o@))
                &&& strictly_sorted(views(l@))
                &&& views(o@).to_set() == found_original
                &&& views(l@).to_set() == found_latest
            }
            &&& r matches Err(e) ==> (e matches IVCError::ImageCountMismatch(c)
                && c.original_count == found_original.len() && c.latest_count
                == found_latest.len())
        }),
{
    let original = select_files(original_paths, config.image_extension.as_str());
    let latest = select_files(latest_paths, config.image_extension.as_str());
    if original.len() == latest.len() {
        return Ok((original, latest));
    }
    Err(create_image_count_mismatch_error(original.len(), latest.len()))
}

} // verus!
