//! Output path derivation.
//!
//! When the caller supplies no output path, one is derived from the input
//! path: the file name keeps its directory, loses its final extension, and
//! gains a `_fixed` suffix with the extension chosen by the output format.
//! A path without a parent directory, without a file name, or whose final
//! component is the directory name `.` or `..` has no parseable stem to
//! derive from and is rejected before any native call.

use crate::scan::find_last_char;
use crate::scan::last_char_index;
use vstd::prelude::*;
use vstd::string::*;

verus! {

/// The extension of the derived output file: `stl` or `off` by format flag.
pub open spec fn ext_chars(stl_output: bool) -> Seq<char> {
    if stl_output {
        "stl"@
    } else {
        "off"@
    }
}

/// Length of the directory prefix of `input`, the final `/` included;
/// zero when the path has no separator.
pub open spec fn parent_prefix_len(input: Seq<char>) -> int {
    last_char_index(input, '/') + 1
}

/// Whether the path names a parent directory at all.
pub open spec fn has_parent_dir(input: Seq<char>) -> bool {
    last_char_index(input, '/') >= 0
}

/// The file-name part of the path: everything after the final separator.
pub open spec fn file_name_of(input: Seq<char>) -> Seq<char> {
    input.subrange(parent_prefix_len(input), input.len() as int)
}

/// Whether the path has a non-empty file-name part.
pub open spec fn has_file_name(input: Seq<char>) -> bool {
    parent_prefix_len(input) < input.len()
}

/// The stem of a file name: everything before the final dot. A dot in the
/// first position starts a hidden file rather than an extension, so such a
/// name is its own stem.
pub open spec fn stem_of(name: Seq<char>) -> Seq<char> {
    if last_char_index(name, '.') > 0 {
        name.take(last_char_index(name, '.'))
    } else {
        name
    }
}

/// A final component that names the current or parent directory rather than
/// a file: `.` or `..`. Such a name has no stem.
pub open spec fn is_dot_name(name: Seq<char>) -> bool {
    name == seq!['.'] || name == seq!['.', '.']
}

/// An output path can be derived exactly from a path with a parent
/// directory and a file name that is not a bare directory component.
pub open spec fn path_derivable(input: Seq<char>) -> bool {
    has_parent_dir(input) && has_file_name(input) && !is_dot_name(file_name_of(input))
}

/// The error for a path no output can be derived from: a missing or
/// unparseable file name is reported first, a missing parent directory
/// second.
pub open spec fn resolve_error_message(input: Seq<char>) -> Seq<char> {
    if !has_file_name(input) || is_dot_name(file_name_of(input)) {
        "Invalid input filename"@
    } else {
        "Invalid input path"@
    }
}

/// Whether the file name is `.` or `..`.
fn is_dot_file_name(name: &str) -> (b: bool)
    ensures
        b == is_dot_name(name@),
{
    let n: usize = name.unicode_len();
    if n == 1 {
        let b = name.get_char(0) == '.';
        proof {
            assert(seq!['.'][0] == '.');
            assert(seq!['.', '.'].len() == 2);
            if b {
                assert(name@ =~= seq!['.']);
            }
        }
        b
    } else if n == 2 {
        let b = name.get_char(0) == '.' && name.get_char(1) == '.';
        proof {
            assert(seq!['.'].len() == 1);
            assert(seq!['.', '.'][0] == '.');
            assert(seq!['.', '.'][1] == '.');
            if b {
                assert(name@ =~= seq!['.', '.']);
            }
        }
        b
    } else {
        proof {
            assert(seq!['.'].len() == 1);
            assert(seq!['.', '.'].len() == 2);
        }
        false
    }
}

/// The derived output path: directory prefix, stem, `_fixed`, and the
/// extension for the chosen format.
pub open spec fn derived_output_path(input: Seq<char>, stl_output: bool) -> Seq<char>
    recommends
        path_derivable(input),
{
    input.take(parent_prefix_len(input)) + stem_of(file_name_of(input)) + "_fixed."@ + ext_chars(
        stl_output,
    )
}

/// Resolve the output path of a repair request.
///
/// A caller-supplied path is returned unchanged, whatever the options say;
/// otherwise the path is derived from the input path, and a path that offers
/// no parent directory or no parseable file-name stem to derive from is
/// rejected.
pub fn resolve_output_path(input_path: &str, output_path: Option<String>, stl_output: bool) -> (r:
    Result<String, String>)
    ensures
        match r {
            Ok(p) => match output_path {
                Some(q) => p@ == q@,
                None => path_derivable(input_path@) && p@ == derived_output_path(
                    input_path@,
                    stl_output,
                ),
            },
            Err(m) => {
                &&& output_path is None
                &&& !path_derivable(input_path@)
                &&& m@ == resolve_error_message(input_path@)
            },
        },
{
    match output_path {
        Some(p) => Ok(p),
        None => {
            let n: usize = input_path.unicode_len();
            match find_last_char(input_path, '/') {
                None => {
                    proof {
                        assert(file_name_of(input_path@) =~= input_path@);
                    }
                    if n == 0 {
                        Err(String::from_str("Invalid input filename"))
                    } else if is_dot_file_name(input_path) {
                        Err(String::from_str("Invalid input filename"))
                    } else {
                        Err(String::from_str("Invalid input path"))
                    }
                },
                Some(si) => {
                    if si + 1 == n {
                        Err(String::from_str("Invalid input filename"))
                    } else if is_dot_file_name(input_path.substring_char(si + 1, n)) {
                        proof {
                            assert(input_path@.subrange(si + 1, n as int) =~= file_name_of(
                                input_path@,
                            ));
                        }
                        Err(String::from_str("Invalid input filename"))
                    } else {
                        let name = input_path.substring_char(si + 1, n);
                        let dot = find_last_char(name, '.');
                        let stem: &str = match dot {
                            Some(di) => if di > 0 {
                                name.substring_char(0, di)
                            } else {
                                name
                            },
                            None => name,
                        };
                        let parent = input_path.substring_char(0, si + 1);
                        let res = String::from_str(parent).concat(stem).concat("_fixed.").concat(
                            if stl_output {
                                "stl"
                            } else {
                                "off"
                            },
                        );
                        proof {
                            assert(name@ =~= file_name_of(input_path@));
                            assert(stem@ =~= stem_of(file_name_of(input_path@)));
                            assert(parent@ =~= input_path@.take(parent_prefix_len(input_path@)));
                            assert(res@ =~= derived_output_path(input_path@, stl_output));
                        }
                        Ok(res)
                    }
                },
            }
        },
    }
}

} // verus!
