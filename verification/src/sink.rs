//! The pure part of the append-only file sink: resolving the target path of a
//! distinction, framing a line with its newline, and the content model of the
//! append operation with its laws. The file system calls themselves live
//! outside the library and write exactly the bytes framed here.

use crate::tags::LogDistinction;
use vstd::prelude::*;
use vstd::string::StringExecFns;

verus! {

/// The target path of a log file: `{base_dir}/{stem}.{extension}`, with one
/// file per distinction stem directly under the base directory.
pub open spec fn spec_log_file_path(base_dir: Seq<char>, stem: Seq<char>, extension: Seq<char>) -> Seq<
    char,
> {
    base_dir + "/"@ + stem + "."@ + extension
}

/// The content of a log file after one line is appended to it: the old
/// content, the line, and exactly one newline.
pub open spec fn spec_append_line(file: Seq<char>, line: Seq<char>) -> Seq<char> {
    file + line + "\n"@
}

/// The content of a log file after each line of `lines` is appended in order.
pub open spec fn spec_append_lines(file: Seq<char>, lines: Seq<Seq<char>>) -> Seq<char>
    decreases lines.len(),
{
    if lines.len() == 0 {
        file
    } else {
        spec_append_lines(spec_append_line(file, lines.first()), lines.drop_first())
    }
}

/// The content of a log file built from nothing but `lines`, each framed by
/// its newline, in order.
pub open spec fn spec_file_of_lines(lines: Seq<Seq<char>>) -> Seq<char>
    decreases lines.len(),
{
    if lines.len() == 0 {
        Seq::<char>::empty()
    } else {
        spec_file_of_lines(lines.drop_last()) + lines.last() + "\n"@
    }
}

/// The number of newline characters in a file content.
pub open spec fn spec_newline_count(s: Seq<char>) -> nat
    decreases s.len(),
{
    if s.len() == 0 {
        0
    } else {
        spec_newline_count(s.drop_last()) + (if s.last() == '\n' {
            1nat
        } else {
            0nat
        })
    }
}

/// Resolves the target file of a distinction stem under a base directory.
pub fn log_file_path(base_dir: &str, stem: &str, extension: &str) -> (p: String)
    ensures
        p@ == spec_log_file_path(base_dir@, stem@, extension@),
{
    let mut p = String::new();
    p.append(base_dir);
    p.append("/");
    p.append(stem);
    p.append(".");
    p.append(extension);
    proof {
        assert(p@ =~= spec_log_file_path(base_dir@, stem@, extension@));
    }
    p
}

/// Resolves the target file of a distinction tag under a base directory: the
/// tag's lowercase token is the file-name stem.
pub fn log_file_path_for(base_dir: &str, distinction: &LogDistinction, extension: &str) -> (p:
    String)
    ensures
        p@ == spec_log_file_path(base_dir@, distinction.spec_log_str(), extension@),
{
    let stem = distinction.as_log_str();
    log_file_path(base_dir, stem.as_str(), extension)
}

/// Frames a line for the append: the line followed by exactly one newline.
pub fn line_with_newline(line: &str) -> (s: String)
    ensures
        s@ == line@ + "\n"@,
{
    let mut s = String::new();
    s.append(line);
    s.append("\n");
    proof {
        assert(s@ =~= line@ + "\n"@);
    }
    s
}

/// Appending to a file never disturbs what the file already held: the old
/// content stays in place as a prefix, and only the framed line follows it.
pub proof fn lemma_append_preserves_content(file: Seq<char>, line: Seq<char>)
    ensures
        spec_append_line(file, line).len() == file.len() + line.len() + 1,
        spec_append_line(file, line).take(file.len() as int) == file,
        spec_append_line(file, line).skip(file.len() as int) == line + "\n"@,
{
    reveal_strlit("\n");
    assert(spec_append_line(file, line).take(file.len() as int) =~= file);
    assert(spec_append_line(file, line).skip(file.len() as int) =~= line + "\n"@);
}

/// The first append to a file that did not yet exist leaves the framed line
/// as the file's sole content.
pub proof fn lemma_first_append(line: Seq<char>)
    ensures
        spec_append_line(Seq::<char>::empty(), line) == line + "\n"@,
{
    assert(spec_append_line(Seq::<char>::empty(), line) =~= line + "\n"@);
}

/// Appending lines one by one is the same as appending their framed
/// concatenation at once.
pub proof fn lemma_append_lines_content(file: Seq<char>, lines: Seq<Seq<char>>)
    ensures
        spec_append_lines(file, lines) == file + spec_file_of_lines(lines),
    decreases lines.len(),
{
    if lines.len() == 0 {
        assert(spec_append_lines(file, lines) =~= file + spec_file_of_lines(lines));
    } else {
        let first_appended = spec_append_line(file, lines.first());
        lemma_append_lines_content(first_appended, lines.drop_first());
        lemma_file_of_lines_unfold_first(lines);
        assert(first_appended + spec_file_of_lines(lines.drop_first()) =~= file
            + spec_file_of_lines(lines));
    }
}

/// The framed concatenation of `lines` unfolded at its first line.
proof fn lemma_file_of_lines_unfold_first(lines: Seq<Seq<char>>)
    requires
        lines.len() > 0,
    ensures
        spec_file_of_lines(lines) == lines.first() + "\n"@ + spec_file_of_lines(
            lines.drop_first(),
        ),
    decreases lines.len(),
{
    if lines.len() == 1 {
        assert(lines.drop_last() =~= Seq::<Seq<char>>::empty());
        assert(lines.drop_first() =~= Seq::<Seq<char>>::empty());
        assert(spec_file_of_lines(lines) =~= lines.first() + "\n"@ + spec_file_of_lines(
            lines.drop_first(),
        ));
    } else {
        lemma_file_of_lines_unfold_first(lines.drop_last());
        assert(lines.drop_last().first() == lines.first());
        assert(lines.drop_last().drop_first() =~= lines.drop_first().drop_last());
        assert(lines.drop_first().last() == lines.last());
        assert(spec_file_of_lines(lines) == spec_file_of_lines(lines.drop_last()) + lines.last()
            + "\n"@);
        assert(spec_file_of_lines(lines) =~= lines.first() + "\n"@ + spec_file_of_lines(
            lines.drop_first(),
        ));
    }
}

/// Newlines in a concatenation: the counts of the parts add up.
proof fn lemma_newline_count_add(a: Seq<char>, b: Seq<char>)
    ensures
        spec_newline_count(a + b) == spec_newline_count(a) + spec_newline_count(b),
    decreases b.len(),
{
    if b.len() == 0 {
        assert(a + b =~= a);
    } else {
        lemma_newline_count_add(a, b.drop_last());
        assert((a + b).drop_last() =~= a + b.drop_last());
        assert((a + b).last() == b.last());
    }
}

/// A line that holds no newline adds no newline of its own.
proof fn lemma_newline_count_of_line(line: Seq<char>)
    requires
        !line.contains('\n'),
    ensures
        spec_newline_count(line) == 0,
    decreases line.len(),
{
    if line.len() > 0 {
        assert(!line.drop_last().contains('\n')) by {
            if line.drop_last().contains('\n') {
                let i = choose|i: int|
                    0 <= i < line.drop_last().len() && line.drop_last()[i] == '\n';
                assert(line[i] == '\n');
            }
        }
        lemma_newline_count_of_line(line.drop_last());
        assert(line.last() != '\n') by {
            assert(line[line.len() - 1] == line.last());
        }
    }
}

/// Appending `n` newline-free lines to a previously empty file yields a file
/// holding exactly those lines, in call order, each terminated by its own
/// newline, and nothing else: its content is their framed concatenation and
/// it holds exactly `n` newlines.
pub proof fn lemma_append_lines_from_empty(lines: Seq<Seq<char>>)
    requires
        forall|i: int| 0 <= i < lines.len() ==> !(#[trigger] lines[i]).contains('\n'),
    ensures
        spec_append_lines(Seq::<char>::empty(), lines) == spec_file_of_lines(lines),
        spec_newline_count(spec_append_lines(Seq::<char>::empty(), lines)) == lines.len(),
    decreases lines.len(),
{
    lemma_append_lines_content(Seq::<char>::empty(), lines);
    assert(Seq::<char>::empty() + spec_file_of_lines(lines) =~= spec_file_of_lines(lines));
    lemma_file_of_lines_newline_count(lines);
}

/// The framed concatenation of `n` newline-free lines holds exactly `n`
/// newlines.
proof fn lemma_file_of_lines_newline_count(lines: Seq<Seq<char>>)
    requires
        forall|i: int| 0 <= i < lines.len() ==> !(#[trigger] lines[i]).contains('\n'),
    ensures
        spec_newline_count(spec_file_of_lines(lines)) == lines.len(),
    decreases lines.len(),
{
    reveal_strlit("\n");
    if lines.len() > 0 {
        lemma_file_of_lines_newline_count(lines.drop_last());
        lemma_newline_count_add(spec_file_of_lines(lines.drop_last()), lines.last());
        lemma_newline_count_add(
            spec_file_of_lines(lines.drop_last()) + lines.last(),
            "\n"@,
        );
        lemma_newline_count_of_line(lines.last());
        assert(spec_newline_count("\n"@) == 1) by {
            assert(spec_newline_count(Seq::<char>::empty()) == 0);
            assert("\n"@.drop_last() =~= Seq::<char>::empty());
            assert("\n"@.last() == '\n');
        }
        assert(spec_file_of_lines(lines) == (spec_file_of_lines(lines.drop_last()) + lines.last())
            + "\n"@) by {
            assert(spec_file_of_lines(lines.drop_last()) + lines.last() + "\n"@
                =~= (spec_file_of_lines(lines.drop_last()) + lines.last()) + "\n"@);
        }
    }
}

} // verus!
