use vstd::prelude::*;

verus! {

/// Index of the first `true` flag at or after `from`, if any.
pub open spec fn first_true_from(flags: Seq<bool>, from: int) -> Option<int>
    decreases flags.len() - from,
{
    if from < 0 || from >= flags.len() {
        None
    } else if flags[from] {
        Some(from)
    } else {
        first_true_from(flags, from + 1)
    }
}

/// The candidate that the locator picks: the first one that exists, or the
/// first one of all when none exists.
pub open spec fn chosen_index(exists: Seq<bool>) -> int {
    match first_true_from(exists, 0) {
        Some(i) => i,
        None => 0,
    }
}

/// Picks the index of the first candidate whose existence flag is set; falls
/// back to the first candidate so that a later spawn reports the missing file.
pub fn select_candidate(exists: &Vec<bool>) -> (r: usize)
    requires
        exists@.len() > 0,
    ensures
        r as int == chosen_index(exists@),
        r < exists@.len(),
{
    let mut i: usize = 0;
    while i < exists.len()
        invariant
            i <= exists@.len(),
            exists@.len() > 0,
            first_true_from(exists@, 0) == first_true_from(exists@, i as int),
        decreases exists@.len() - i,
    {
        if exists[i] {
            return i;
        }
        i = i + 1;
    }
    0
}

/// The backend script to launch: the first candidate that exists, or the
/// first candidate of all when none does.
pub fn backend_script(candidates: &Vec<String>, exists: &Vec<bool>) -> (r: String)
    requires
        candidates@.len() > 0,
        exists@.len() == candidates@.len(),
    ensures
        r == candidates@[chosen_index(exists@)],
{
    let i = select_candidate(exists);
    candidates[i].clone()
}

/// The path that std's `Path::join` gives for a base and a relative segment.
pub uninterp spec fn path_joined(base: Seq<char>, seg: Seq<char>) -> Seq<char>;

/// Relies on std::path::Path::join: the base path extended by one segment.
/// Both are UTF-8, so the joined path converts back to a String unchanged.
#[verifier::external_body]
fn join_path(base: &str, seg: &str) -> (r: String)
    ensures
        r@ == path_joined(base@, seg@),
{
    std::path::Path::new(base).join(seg).to_string_lossy().into_owned()
}

/// A base path extended by each segment in turn.
pub open spec fn joined_all(base: Seq<char>, segs: Seq<Seq<char>>) -> Seq<char>
    decreases segs.len(),
{
    if segs.len() == 0 {
        base
    } else {
        path_joined(joined_all(base, segs.drop_last()), segs.last())
    }
}

/// The views of a list of segments.
pub open spec fn segment_views(segs: Seq<&str>) -> Seq<Seq<char>> {
    segs.map_values(|s: &str| s@)
}

/// Extends a base path by each segment in turn.
pub fn join_segments(base: &str, segs: &Vec<&str>) -> (r: String)
    ensures
        r@ == joined_all(base@, segment_views(segs@)),
{
    let mut path = String::from_str(base);
    let mut i: usize = 0;
    while i < segs.len()
        invariant
            i <= segs@.len(),
            path@ == joined_all(base@, segment_views(segs@.take(i as int))),
        decreases segs@.len() - i,
    {
        let next = join_path(path.as_str(), segs[i]);
        proof {
            let done = segment_views(segs@.take(i as int + 1));
            assert(done.drop_last() =~= segment_views(segs@.take(i as int)));
            assert(done.last() == segs@[i as int]@);
        }
        path = next;
        i = i + 1;
    }
    proof {
        assert(segs@.take(segs@.len() as int) =~= segs@);
    }
    path
}

/// Where the backend script may be found, most specific first: bundled under
/// the resource directory, flat in it, in the source tree three levels above
/// it, and in the source tree under the working directory.
pub open spec fn candidate_segments() -> Seq<Seq<Seq<char>>> {
    seq![
        seq!["backend"@, "pykaraoke"@, "core"@, "backend.py"@],
        seq!["backend.py"@],
        seq![".."@, ".."@, ".."@, "src"@, "pykaraoke"@, "core"@, "backend.py"@],
        seq!["src"@, "pykaraoke"@, "core"@, "backend.py"@],
    ]
}

/// The candidate paths of the backend script, in the order they are tried.
pub fn backend_candidates(resource_dir: &str, cwd: &str) -> (r: Vec<String>)
    ensures
        r@.len() == 4,
        r@[0]@ == joined_all(resource_dir@, candidate_segments()[0]),
        r@[1]@ == joined_all(resource_dir@, candidate_segments()[1]),
        r@[2]@ == joined_all(resource_dir@, candidate_segments()[2]),
        r@[3]@ == joined_all(cwd@, candidate_segments()[3]),
{
    let bundled = vec!["backend", "pykaraoke", "core", "backend.py"];
    let flat = vec!["backend.py"];
    let source_tree = vec!["..", "..", "..", "src", "pykaraoke", "core", "backend.py"];
    let working_dir = vec!["src", "pykaraoke", "core", "backend.py"];
    assert(segment_views(bundled@) =~= candidate_segments()[0]);
    assert(segment_views(flat@) =~= candidate_segments()[1]);
    assert(segment_views(source_tree@) =~= candidate_segments()[2]);
    assert(segment_views(working_dir@) =~= candidate_segments()[3]);
    let mut r: Vec<String> = Vec::new();
    r.push(join_segments(resource_dir, &bundled));
    r.push(join_segments(resource_dir, &flat));
    r.push(join_segments(resource_dir, &source_tree));
    r.push(join_segments(cwd, &working_dir));
    r
}

} // verus!
