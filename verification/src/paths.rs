//! File names: where a converted image is written and what to search for.

use vstd::prelude::*;

verus! {

/// The position of the last `c` in `s`, or -1 where `s` holds none.
pub open spec fn last_index_of(s: Seq<char>, c: char) -> int
    decreases s.len(),
{
    if s.len() == 0 {
        -1
    } else if s.last() == c {
        s.len() - 1
    } else {
        last_index_of(s.drop_last(), c)
    }
}

/// `last_index_of` finds an occurrence, and nothing after it is one.
pub proof fn lemma_last_index_of(s: Seq<char>, c: char)
    ensures
        -1 <= last_index_of(s, c) < s.len(),
        last_index_of(s, c) >= 0 ==> s[last_index_of(s, c)] == c,
        forall|j: int| last_index_of(s, c) < j < s.len() ==> s[j] != c,
    decreases s.len(),
{
    if s.len() > 0 && s.last() != c {
        let front = s.drop_last();
        lemma_last_index_of(front, c);
        assert forall|j: int| last_index_of(s, c) < j < s.len() implies s[j] != c by {
            if j < front.len() {
                assert(front[j] == s[j]);
            }
        }
    }
}

/// Finds the last `c` in `s`.
pub fn find_last(s: &str, c: char) -> (r: Option<usize>)
    ensures
        r is None <==> last_index_of(s@, c) == -1,
        r matches Some(i) ==> i == last_index_of(s@, c),
{
    let n: usize = s.unicode_len();
    let mut found: Option<usize> = None;
    let mut i: usize = 0;
    for ch in it: s.chars()
        invariant
            i == it.index(),
            it.seq() == s@,
            s@.len() == n,
            found is None <==> last_index_of(s@.take(i as int), c) == -1,
            found matches Some(k) ==> k == last_index_of(s@.take(i as int), c),
    {
        assert(s@.take(i + 1).drop_last() == s@.take(i as int));
        if ch == c {
            found = Some(i);
        }
        i = i + 1;
    }
    assert(s@.take(i as int) == s@);
    found
}

/// The last segment of a path: what follows its last `/`, or all of it.
pub open spec fn file_name(path: Seq<char>) -> Seq<char> {
    path.subrange(last_index_of(path, '/') + 1, path.len() as int)
}

/// Whether the last segment of a path can name a file: it is not empty and
/// is neither `.` nor `..`.
pub open spec fn names_file(path: Seq<char>) -> bool {
    let name = file_name(path);
    name.len() > 0 && name != seq!['.'] && name != seq!['.', '.']
}

/// A file name without its extension: the part before the last `.`. A name
/// without a `.`, or whose only `.` is its first character, is its own stem.
pub open spec fn file_stem(name: Seq<char>) -> Seq<char> {
    let dot = last_index_of(name, '.');
    if dot <= 0 {
        name
    } else {
        name.subrange(0, dot)
    }
}

/// The extension that every converted image gets.
pub open spec fn jpeg_suffix() -> Seq<char> {
    seq!['.', 'j', 'p', 'g']
}

/// Where the image converted from `source` is written: directly in
/// `destination`, under the stem of the source's file name and `.jpg`.
pub open spec fn output_path_of(destination: Seq<char>, source: Seq<char>) -> Seq<char> {
    destination + seq!['/'] + file_stem(file_name(source)) + jpeg_suffix()
}

/// What is searched for below `start_dir`: every `.cr2` file in the directory
/// itself, or, where `recursive` is set, at any depth below it.
pub open spec fn glob_pattern_of(start_dir: Seq<char>, recursive: bool) -> Seq<char> {
    if recursive {
        start_dir + seq!['/', '*', '*', '/', '*', '.', 'c', 'r', '2']
    } else {
        start_dir + seq!['/', '*', '.', 'c', 'r', '2']
    }
}

/// How a pattern is held against a path.
#[derive(Clone, Copy, Debug, PartialEq, Eq, Structural)]
pub struct MatchRules {
    /// Upper and lower case letters differ.
    pub case_sensitive: bool,
    /// A `/` in a path is matched only by a `/` in the pattern.
    pub require_literal_separator: bool,
    /// A leading `.` of a segment is matched only by a `.` in the pattern.
    pub require_literal_leading_dot: bool,
}

/// The rules of the search for RAW images: letters match whatever their
/// case, and neither `/` nor a leading `.` needs to be spelled out.
pub open spec fn search_rules() -> MatchRules {
    MatchRules {
        case_sensitive: false,
        require_literal_separator: false,
        require_literal_leading_dot: false,
    }
}

/// The rules of the search for RAW images.
pub fn match_rules() -> (r: MatchRules)
    ensures
        r == search_rules(),
{
    MatchRules {
        case_sensitive: false,
        require_literal_separator: false,
        require_literal_leading_dot: false,
    }
}

/// The pattern that finds the RAW images of `start_dir`.
pub fn glob_pattern(start_dir: &str, recursive: bool) -> (r: String)
    ensures
        r@ == glob_pattern_of(start_dir@, recursive),
{
    let mut pattern = String::from_str(start_dir);
    if recursive {
        proof {
            reveal_strlit("/**/*.cr2");
        }
        pattern.append("/**/*.cr2");
    } else {
        proof {
            reveal_strlit("/*.cr2");
        }
        pattern.append("/*.cr2");
    }
    pattern
}

/// The path of the JPEG file that the conversion of `source` writes in
/// `destination`, or `None` where `source` does not end in a file name.
pub fn output_path(destination: &str, source: &str) -> (r: Option<String>)
    ensures
        r is Some <==> names_file(source@),
        r matches Some(p) ==> p@ == output_path_of(destination@, source@),
{
    let n: usize = source.unicode_len();
    proof {
        lemma_last_index_of(source@, '/');
    }
    let start: usize = match find_last(source, '/') {
        Some(i) => i + 1,
        None => 0,
    };
    let name = source.substring_char(start, n);
    let len: usize = n - start;
    if len == 0 {
        return None;
    }
    if len == 1 && name.get_char(0) == '.' {
        assert(name@ == seq!['.']);
        return None;
    }
    if len == 2 && name.get_char(0) == '.' && name.get_char(1) == '.' {
        assert(name@ == seq!['.', '.']);
        return None;
    }
    proof {
        lemma_last_index_of(name@, '.');
    }
    let stem = match find_last(name, '.') {
        Some(dot) => if dot > 0 {
            name.substring_char(0, dot)
        } else {
            name
        },
        None => name,
    };
    let mut out = String::from_str(destination);
    proof {
        reveal_strlit("/");
        reveal_strlit(".jpg");
    }
    out.append("/");
    out.append(stem);
    out.append(".jpg");
    Some(out)
}

/// A converted image lies directly in the destination directory: the last
/// segment of its path is the source's stem followed by `.jpg`.
pub proof fn lemma_output_in_destination(destination: Seq<char>, source: Seq<char>)
    ensures
        file_name(output_path_of(destination, source)) == file_stem(file_name(source))
            + jpeg_suffix(),
{
    let name = file_name(source);
    let stem = file_stem(name);
    let tail = stem + jpeg_suffix();
    let out = output_path_of(destination, source);
    let slash = destination.len() as int;
    lemma_last_index_of(source, '/');
    lemma_last_index_of(name, '.');
    assert forall|j: int| 0 <= j < tail.len() implies tail[j] != '/' by {
        if j < stem.len() {
            assert(stem[j] == name[j]);
            assert(name[j] == source[last_index_of(source, '/') + 1 + j]);
        }
    }
    assert(out.len() == slash + 1 + tail.len());
    assert(out[slash] == '/');
    assert forall|j: int| slash < j < out.len() implies out[j] != '/' by {
        assert(out[j] == tail[j - slash - 1]);
    }
    lemma_last_index_of(out, '/');
    assert(last_index_of(out, '/') == slash);
    assert(file_name(out) =~= tail);
}

/// Two files are written to the same place exactly when their names have
/// the same stem: only such files can overwrite each other's output.
pub proof fn lemma_outputs_collide(destination: Seq<char>, a: Seq<char>, b: Seq<char>)
    ensures
        output_path_of(destination, a) == output_path_of(destination, b) <==> file_stem(
            file_name(a),
        ) == file_stem(file_name(b)),
{
    let stem_a = file_stem(file_name(a));
    let stem_b = file_stem(file_name(b));
    let out_a = output_path_of(destination, a);
    let out_b = output_path_of(destination, b);
    let offset = destination.len() + 1;
    if out_a == out_b {
        assert(out_a.len() == offset + stem_a.len() + 4);
        assert(out_b.len() == offset + stem_b.len() + 4);
        assert forall|j: int| 0 <= j < stem_a.len() implies stem_a[j] == stem_b[j] by {
            assert(out_a[offset + j] == stem_a[j]);
            assert(out_b[offset + j] == stem_b[j]);
        }
        assert(stem_a =~= stem_b);
    }
}

} // verus!
