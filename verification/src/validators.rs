//! Validators for output names and paths.
//!
//! Paths are raw bytes: POSIX allows names that are not valid UTF-8, and the
//! checks here are byte-oriented.  A name or path is accepted only when it
//! should be usable on all major filesystems and operating systems, which is
//! deliberately stricter than what the local filesystem enforces: output
//! files should survive being copied or moved elsewhere.

use vstd::prelude::*;

verus! {

/// Longest portable file or folder name, in bytes.
pub const MAX_NAME_LEN: usize = 255;

/// Longest portable path, in bytes.
pub const MAX_PATH_LEN: usize = 32760;

/// A byte that no portable file name may contain: ASCII control bytes and
/// DEL, the Win32 wildcard and quoting bytes, and the path and drive
/// separators of the major platforms.
pub open spec fn forbidden_byte(b: u8) -> bool {
    ||| b <= 0x1f
    ||| b == 0x7f
    ||| b == 34
    ||| b == 42
    ||| b == 60
    ||| b == 62
    ||| b == 63
    ||| b == 124
    ||| b == 47
    ||| b == 58
    ||| b == 92
}

/// Upper-case an ASCII byte.
pub open spec fn ascii_upper(b: u8) -> u8 {
    if 97 <= b <= 122 {
        (b - 32) as u8
    } else {
        b
    }
}

/// The index of the last dot in `s`, if any.
pub open spec fn last_dot(s: Seq<u8>) -> Option<int>
    decreases s.len(),
{
    if s.len() == 0 {
        None
    } else if s[s.len() - 1] == 46 {
        Some(s.len() - 1)
    } else {
        last_dot(s.drop_last())
    }
}

/// The file stem of a name: the part before the last dot, unless the name
/// has no dot or only a leading one, in which case it is the whole name.
pub open spec fn stem_of(s: Seq<u8>) -> Seq<u8> {
    match last_dot(s) {
        Some(i) => if i >= 1 {
            s.subrange(0, i)
        } else {
            s
        },
        None => s,
    }
}

/// Whether the upper-cased stem is one of the file names Win32 reserves for
/// devices, which cannot name real files whatever their extension: AUX, CON,
/// NUL, PRN, COM1 through COM9, LPT1 through LPT9, and CLOCK$.
pub open spec fn is_reserved_stem(s: Seq<u8>) -> bool {
    ||| (s.len() == 3 && ascii_upper(s[0]) == 65 && ascii_upper(s[1]) == 85
        && ascii_upper(s[2]) == 88)  // AUX
    ||| (s.len() == 3 && ascii_upper(s[0]) == 67 && ascii_upper(s[1]) == 79
        && ascii_upper(s[2]) == 78)  // CON
    ||| (s.len() == 3 && ascii_upper(s[0]) == 78 && ascii_upper(s[1]) == 85
        && ascii_upper(s[2]) == 76)  // NUL
    ||| (s.len() == 3 && ascii_upper(s[0]) == 80 && ascii_upper(s[1]) == 82
        && ascii_upper(s[2]) == 78)  // PRN
    ||| (s.len() == 4 && ascii_upper(s[0]) == 67 && ascii_upper(s[1]) == 79
        && ascii_upper(s[2]) == 77 && 49 <= s[3] <= 57)  // COM1 through COM9
    ||| (s.len() == 4 && ascii_upper(s[0]) == 76 && ascii_upper(s[1]) == 80
        && ascii_upper(s[2]) == 84 && 49 <= s[3] <= 57)  // LPT1 through LPT9
    ||| (s.len() == 6 && ascii_upper(s[0]) == 67 && ascii_upper(s[1]) == 76
        && ascii_upper(s[2]) == 79 && ascii_upper(s[3]) == 67 && ascii_upper(s[4]) == 75
        && s[5] == 36)  // CLOCK$
}

/// A portable file or folder name: non-empty, within the length limit, not
/// ending in a space or a period (the Win32 shell cannot handle those), free
/// of forbidden bytes, and not a reserved device name.
pub open spec fn valid_filename(s: Seq<u8>) -> bool {
    &&& 1 <= s.len() <= MAX_NAME_LEN
    &&& !(s[s.len() - 1] == 32 || s[s.len() - 1] == 46)
    &&& (forall|i: int| 0 <= i < s.len() ==> !forbidden_byte(#[trigger] s[i]))
    &&& !is_reserved_stem(stem_of(s))
}

/// Why a name or path was refused.
#[derive(Debug, Clone, Copy, PartialEq, Eq, Structural)]
pub enum PathError {
    /// The name or path is empty.
    Empty,
    /// A file or folder name exceeds the portable length limit.
    NameTooLong {
        /// The offending length.
        len: usize,
    },
    /// The whole path exceeds the portable length limit.
    PathTooLong {
        /// The offending length.
        len: usize,
    },
    /// The name ends with a space or a period.
    TrailingSpaceOrDot,
    /// The name holds a byte some major filesystem forbids.
    ForbiddenByte,
    /// The name is a reserved Win32 device name.
    ReservedName,
    /// The probed path is not a directory.
    NotADirectory,
    /// The probed directory cannot be written.
    NotWritable,
}

/// The error reported for an invalid name; the checks run in this order:
/// length, emptiness, trailing byte, forbidden bytes, reserved names.
pub open spec fn filename_error(s: Seq<u8>) -> PathError {
    if s.len() > MAX_NAME_LEN {
        PathError::NameTooLong { len: s.len() as usize }
    } else if s.len() == 0 {
        PathError::Empty
    } else if s[s.len() - 1] == 32 || s[s.len() - 1] == 46 {
        PathError::TrailingSpaceOrDot
    } else if exists|i: int| 0 <= i < s.len() && forbidden_byte(#[trigger] s[i]) {
        PathError::ForbiddenByte
    } else {
        PathError::ReservedName
    }
}

/// Upper-case an ASCII byte at run time.
fn upper_byte(b: u8) -> (r: u8)
    ensures
        r == ascii_upper(b),
{
    if 97 <= b && b <= 122 {
        b - 32
    } else {
        b
    }
}

/// A dot at `k` with none after it is the last dot.
proof fn lemma_last_dot_some(s: Seq<u8>, k: int)
    requires
        0 <= k < s.len(),
        s[k] == 46,
        forall|i: int| k < i < s.len() ==> s[i] != 46,
    ensures
        last_dot(s) == Some(k),
    decreases s.len(),
{
    if k < s.len() - 1 {
        assert(s.drop_last() =~= s.subrange(0, s.len() - 1));
        lemma_last_dot_some(s.drop_last(), k);
    }
}

/// A name with no dot has no last dot.
proof fn lemma_last_dot_none(s: Seq<u8>)
    requires
        forall|i: int| 0 <= i < s.len() ==> s[i] != 46,
    ensures
        last_dot(s) is None,
    decreases s.len(),
{
    if s.len() > 0 {
        lemma_last_dot_none(s.drop_last());
    }
}

/// Whether the prefix of `name` up to `end` is a reserved device name.
fn reserved_in_prefix(name: &Vec<u8>, end: usize) -> (r: bool)
    requires
        end <= name@.len(),
    ensures
        r == is_reserved_stem(name@.subrange(0, end as int)),
{
    let ghost stem = name@.subrange(0, end as int);
    if end == 3 {
        let a = upper_byte(name[0]);
        let b = upper_byte(name[1]);
        let c = upper_byte(name[2]);
        (a == 65 && b == 85 && c == 88) || (a == 67 && b == 79 && c == 78)
            || (a == 78 && b == 85 && c == 76) || (a == 80 && b == 82 && c == 78)
    } else if end == 4 {
        let a = upper_byte(name[0]);
        let b = upper_byte(name[1]);
        let c = upper_byte(name[2]);
        let d = name[3];
        ((a == 67 && b == 79 && c == 77) || (a == 76 && b == 80 && c == 84)) && 49 <= d
            && d <= 57
    } else if end == 6 {
        let a = upper_byte(name[0]);
        let b = upper_byte(name[1]);
        let c = upper_byte(name[2]);
        let d = upper_byte(name[3]);
        let e = upper_byte(name[4]);
        let f = name[5];
        a == 67 && b == 76 && c == 79 && d == 67 && e == 75 && f == 36
    } else {
        false
    }
}

/// Check that a file or folder name is portable.  `Ok` exactly for the names
/// `valid_filename` accepts; otherwise the error of the first failing check.
pub fn filename_valid_portable(name: &Vec<u8>) -> (r: Result<(), PathError>)
    ensures
        r is Ok <==> valid_filename(name@),
        r matches Err(e) ==> e == filename_error(name@),
{
    let n = name.len();
    if n > MAX_NAME_LEN {
        return Err(PathError::NameTooLong { len: n });
    }
    if n == 0 {
        return Err(PathError::Empty);
    }
    let last = name[n - 1];
    if last == 32 || last == 46 {
        return Err(PathError::TrailingSpaceOrDot);
    }
    let mut i: usize = 0;
    while i < n
        invariant
            0 <= i <= n,
            n == name@.len(),
            1 <= n <= MAX_NAME_LEN,
            !(name@[n - 1] == 32 || name@[n - 1] == 46),
            forall|j: int| 0 <= j < i ==> !forbidden_byte(#[trigger] name@[j]),
        decreases n - i,
    {
        let b = name[i];
        if b <= 0x1f || b == 0x7f || b == 34 || b == 42 || b == 60 || b == 62 || b == 63
            || b == 124 || b == 47 || b == 58 || b == 92 {
            proof {
                assert(forbidden_byte(name@[i as int]));
            }
            return Err(PathError::ForbiddenByte);
        }
        i += 1;
    }
    // Find the last dot, to isolate the stem for the reserved-name check.
    let mut dot: usize = n;
    let mut j: usize = 0;
    while j < n
        invariant
            0 <= j <= n,
            n == name@.len(),
            dot == n || (dot < j && name@[dot as int] == 46),
            forall|k: int| 0 <= k < j && name@[k] == 46 ==> k <= dot < n,
        decreases n - j,
    {
        if name[j] == 46 {
            dot = j;
        }
        j += 1;
    }
    let stem_end: usize = if dot == n || dot == 0 {
        proof {
            if dot == n {
                lemma_last_dot_none(name@);
            } else {
                lemma_last_dot_some(name@, dot as int);
            }
            assert(stem_of(name@) =~= name@.subrange(0, n as int));
        }
        n
    } else {
        proof {
            lemma_last_dot_some(name@, dot as int);
        }
        dot
    };
    proof {
        assert(stem_of(name@) =~= name@.subrange(0, stem_end as int));
    }
    if reserved_in_prefix(name, stem_end) {
        return Err(PathError::ReservedName);
    }
    Ok(())
}

/// A maximal separator-free run of `s`: it touches a path separator or an
/// end of the path on both sides and holds no separator itself.  These are
/// the byte ranges a path decomposes into; the runs `.` and `..` stand for
/// the current and the parent directory and are not names.
pub open spec fn is_segment(s: Seq<u8>, i: int, j: int) -> bool {
    &&& 0 <= i < j <= s.len()
    &&& (i == 0 || s[i - 1] == 47)
    &&& (j == s.len() || s[j] == 47)
    &&& (forall|k: int| i <= k < j ==> s[k] != 47)
}

/// A segment that names a file or folder: not `.` and not `..`.
pub open spec fn normal_segment(seg: Seq<u8>) -> bool {
    &&& !(seg.len() == 1 && seg[0] == 46)
    &&& !(seg.len() == 2 && seg[0] == 46 && seg[1] == 46)
}

/// A portable path: non-empty, within the length limit, and with every
/// file-or-folder segment a portable name.  Repeated separators and the
/// `.` and `..` segments are allowed; the separators themselves are native.
pub open spec fn valid_path(s: Seq<u8>) -> bool {
    &&& 1 <= s.len() <= MAX_PATH_LEN
    &&& (forall|i: int, j: int| #[trigger]
        is_segment(s, i, j) && normal_segment(s.subrange(i, j)) ==> valid_filename(
            s.subrange(i, j),
        ))
}

/// Check that a whole path is portable.  `Ok` exactly for the paths
/// `valid_path` accepts.  An empty or over-long path reports itself; an
/// invalid segment reports that segment's name error.
pub fn path_valid_portable(path: &Vec<u8>) -> (r: Result<(), PathError>)
    ensures
        r is Ok <==> valid_path(path@),
        path@.len() == 0 ==> r == Err::<(), PathError>(PathError::Empty),
        path@.len() > MAX_PATH_LEN ==> (r == Err::<(), PathError>(
            PathError::PathTooLong { len: path@.len() as usize },
        )),
        1 <= path@.len() <= MAX_PATH_LEN ==> (r matches Err(e) ==> exists|i: int, j: int|
            #[trigger] is_segment(path@, i, j) && normal_segment(path@.subrange(i, j))
                && !valid_filename(path@.subrange(i, j))
                && e == filename_error(path@.subrange(i, j))),
{
    let n = path.len();
    if n == 0 {
        return Err(PathError::Empty);
    }
    if n > MAX_PATH_LEN {
        return Err(PathError::PathTooLong { len: n });
    }
    let mut seg_start: usize = 0;
    let mut i: usize = 0;
    loop
        invariant
            0 <= seg_start <= i <= n,
            n == path@.len(),
            1 <= n <= MAX_PATH_LEN,
            seg_start == 0 || path@[seg_start - 1] == 47,
            forall|k: int| seg_start <= k < i ==> path@[k] != 47,
            forall|i2: int, j2: int| #[trigger]
                is_segment(path@, i2, j2) && j2 < i && normal_segment(path@.subrange(i2, j2))
                    ==> valid_filename(path@.subrange(i2, j2)),
        ensures
            forall|i2: int, j2: int| #[trigger]
                is_segment(path@, i2, j2) && normal_segment(path@.subrange(i2, j2))
                    ==> valid_filename(path@.subrange(i2, j2)),
        decreases n + 1 - i,
    {
        if i == n || path[i] == 47 {
            // The segment [seg_start, i), if non-empty, ends here, and it is
            // the only segment that can end here.
            assert forall|i2: int, j2: int| #[trigger]
                is_segment(path@, i2, j2) && j2 == i implies i2 == seg_start by {
                if i2 < seg_start {
                    assert(path@[seg_start - 1] == 47);
                } else if i2 > seg_start {
                    assert(path@[i2 - 1] != 47);
                }
            }
            if i > seg_start {
                proof {
                    assert(is_segment(path@, seg_start as int, i as int));
                }
                let seg_len = i - seg_start;
                let dot1 = seg_len == 1 && path[seg_start] == 46;
                let dot2 = seg_len == 2 && path[seg_start] == 46 && path[seg_start + 1] == 46;
                if !dot1 && !dot2 {
                    let mut seg: Vec<u8> = Vec::new();
                    let mut k: usize = seg_start;
                    while k < i
                        invariant
                            seg_start <= k <= i <= n,
                            n == path@.len(),
                            seg@ =~= path@.subrange(seg_start as int, k as int),
                        decreases i - k,
                    {
                        seg.push(path[k]);
                        proof {
                            assert(seg@ =~= path@.subrange(seg_start as int, k + 1 as int));
                        }
                        k += 1;
                    }
                    proof {
                        assert(seg@ =~= path@.subrange(seg_start as int, i as int));
                        assert(normal_segment(seg@));
                    }
                    match filename_valid_portable(&seg) {
                        Ok(_) => {},
                        Err(e) => {
                            proof {
                                assert(is_segment(path@, seg_start as int, i as int)
                                    && normal_segment(path@.subrange(seg_start as int, i as int))
                                    && !valid_filename(path@.subrange(seg_start as int, i as int))
                                    && e == filename_error(
                                    path@.subrange(seg_start as int, i as int),
                                ));
                            }
                            return Err(e);
                        },
                    }
                }
            }
            // Every segment ending at or before the current separator (or the
            // end of the path) has now been checked.
            proof {
                assert forall|i2: int, j2: int| #[trigger]
                    is_segment(path@, i2, j2) && j2 <= i && normal_segment(
                        path@.subrange(i2, j2),
                    ) implies valid_filename(path@.subrange(i2, j2)) by {
                    if j2 == i {
                        assert(i2 == seg_start);
                    }
                }
            }
            if i == n {
                proof {
                    assert forall|i2: int, j2: int| #[trigger]
                        is_segment(path@, i2, j2) && normal_segment(path@.subrange(i2, j2))
                            implies valid_filename(path@.subrange(i2, j2)) by {
                        assert(j2 <= i);
                    }
                }
                break;
            }
            seg_start = i + 1;
        }
        i += 1;
    }
    proof {
        assert(valid_path(path@));
    }
    Ok(())
}

/// Decide whether a probed path may serve as the output directory: it must
/// be a directory and look writable.  The two probe answers come from the
/// platform: whether the path is a directory, and whether its canonical form
/// passed a write-permission check.
pub fn path_output_dir(is_dir: bool, writable: bool) -> (r: Result<(), PathError>)
    ensures
        r is Ok <==> (is_dir && writable),
        !is_dir ==> r == Err::<(), PathError>(PathError::NotADirectory),
        is_dir && !writable ==> r == Err::<(), PathError>(PathError::NotWritable),
{
    if !is_dir {
        Err(PathError::NotADirectory)
    } else if !writable {
        Err(PathError::NotWritable)
    } else {
        Ok(())
    }
}

/// Decide whether a probed path should be writable as a directory; the same
/// decision `path_output_dir` makes, kept separate because callers treat the
/// two checks as distinct validators.
pub fn dir_writable(is_dir: bool, writable: bool) -> (r: Result<(), PathError>)
    ensures
        r is Ok <==> (is_dir && writable),
        !is_dir ==> r == Err::<(), PathError>(PathError::NotADirectory),
        is_dir && !writable ==> r == Err::<(), PathError>(PathError::NotWritable),
{
    if !is_dir {
        Err(PathError::NotADirectory)
    } else if !writable {
        Err(PathError::NotWritable)
    } else {
        Ok(())
    }
}

} // verus!
