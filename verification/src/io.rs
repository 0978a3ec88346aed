//! Lines of text: who hands them out and who takes them, a reader over lines that
//! were loaded beforehand, and the input of a test case read line by line.

use crate::number::{i32_value, parse_i32};
use crate::text::{char_is_white_space, is_white_space, join, trim_end, trim_end_seq};
use vstd::prelude::*;
use vstd::string::*;

verus! {

/// Takes lines of text: `Some` where the line was taken, `None` where it was not.
pub trait IoWriter {
    fn write_line(&mut self, content: &str) -> Option<bool>;
}

/// Hands out lines of text in order, `None` when there is none left.
pub trait IoReader {
    fn read_line(&mut self) -> Option<String>;
}

/// The directory of the test case files.
pub const CCC_INPUT_DIR: &'static str = "/Users/lzcoder/repos/ccc-rust/io_files/";

/// A reader over the lines of a file that was loaded as a whole. The lines are kept
/// last line first, so that the next line to hand out is the last of `lines`.
#[derive(Debug, Clone)]
pub struct FileIoReadProvider {
    pub file_path: String,
    pub lines: Vec<String>,
}

/// The input of a test case: the lines of its file, read one by one.
pub struct TcFileInput {
    pub file_handle: FileIoReadProvider,
}

/// The views of a list of texts.
pub open spec fn text_views(texts: Seq<String>) -> Seq<Seq<char>> {
    texts.map_values(|s: String| s@)
}

/// The lines of a file as a reader keeps them: each without its trailing white space.
pub open spec fn loaded_lines(raw: Seq<Seq<char>>) -> Seq<Seq<char>> {
    raw.map_values(|line: Seq<char>| trim_end_seq(line))
}

/// The words of a text: its runs of characters that are not white space, in order.
/// The text is read character by character: white space ends a word, any other
/// character extends the word that the character before it belongs to, or begins one.
pub open spec fn split_words(s: Seq<char>) -> Seq<Seq<char>>
    decreases s.len(),
{
    if s.len() == 0 {
        Seq::empty()
    } else {
        let before = split_words(s.drop_last());
        if is_white_space(s.last()) {
            before
        } else if s.len() >= 2 && !is_white_space(s[s.len() - 2]) && before.len() > 0 {
            before.drop_last().push(before.last().push(s.last()))
        } else {
            before.push(seq![s.last()])
        }
    }
}

/// The characters of a text, each as a text of its own.
pub open spec fn split_chars(s: Seq<char>) -> Seq<Seq<char>> {
    Seq::new(s.len(), |i: int| seq![s[i]])
}

/// The words of a text that ends inside a word are the words before that word, then
/// the word.
proof fn lemma_split_words_open(s: Seq<char>, start: int)
    requires
        0 <= start < s.len(),
        start == 0 || is_white_space(s[start - 1]),
        forall|i: int| start <= i < s.len() ==> !is_white_space(#[trigger] s[i]),
    ensures
        split_words(s) == split_words(s.subrange(0, start)).push(
            s.subrange(start, s.len() as int),
        ),
    decreases s.len(),
{
    let head = s.subrange(0, start);
    let before = s.drop_last();
    if start == s.len() - 1 {
        assert(before =~= head);
        assert(s.subrange(start, s.len() as int) =~= seq![s.last()]);
        if s.len() >= 2 {
            assert(is_white_space(s[s.len() - 2]));
        }
    } else {
        assert(before.subrange(0, start) =~= head);
        assert forall|i: int| start <= i < before.len() implies !is_white_space(
            #[trigger] before[i],
        ) by {
            assert(before[i] == s[i]);
        }
        assert(start == 0 || is_white_space(before[start - 1]));
        lemma_split_words_open(before, start);
        let word = before.subrange(start, before.len() as int);
        assert(!is_white_space(s[s.len() - 2]));
        assert(split_words(before).drop_last() =~= split_words(head));
        assert(word.push(s.last()) =~= s.subrange(start, s.len() as int));
    }
}

/// Splits a text into its words.
pub fn words(line: &str) -> (out: Vec<String>)
    ensures
        text_views(out@) == split_words(line@),
{
    let n = line.unicode_len();
    let mut out: Vec<String> = Vec::new();
    let mut i: usize = 0;
    let mut start: usize = 0;
    let mut inside = false;
    assert(line@.subrange(0, 0) =~= Seq::<char>::empty());
    assert(text_views(out@) =~= Seq::<Seq<char>>::empty());
    while i < n
        invariant
            i <= n,
            n == line@.len(),
            inside ==> start < i,
            !inside ==> start == i,
            start == 0 || is_white_space(line@[start - 1]),
            forall|j: int| start <= j < i ==> !is_white_space(#[trigger] line@[j]),
            text_views(out@) == split_words(line@.subrange(0, start as int)),
        decreases n - i,
    {
        let c = line.get_char(i);
        if char_is_white_space(c) {
            if inside {
                let word = line.substring_char(start, i);
                let ghost done = text_views(out@);
                out.push(String::from_str(word));
                proof {
                    assert(text_views(out@) =~= done.push(word@));
                    let upto = line@.subrange(0, i as int);
                    assert(upto.subrange(0, start as int) =~= line@.subrange(0, start as int));
                    assert(upto.subrange(start as int, i as int) =~= word@);
                    assert forall|j: int| start <= j < upto.len() implies !is_white_space(
                        #[trigger] upto[j],
                    ) by {
                        assert(upto[j] == line@[j]);
                    }
                    lemma_split_words_open(upto, start as int);
                }
            }
            proof {
                let next = line@.subrange(0, i + 1);
                assert(next.drop_last() =~= line@.subrange(0, i as int));
                assert(is_white_space(next.last()));
            }
            inside = false;
            start = i + 1;
        } else {
            inside = true;
        }
        i += 1;
    }
    if inside {
        let word = line.substring_char(start, n);
        let ghost done = text_views(out@);
        out.push(String::from_str(word));
        proof {
            assert(text_views(out@) =~= done.push(word@));
            lemma_split_words_open(line@, start as int);
        }
    } else {
        assert(line@.subrange(0, start as int) =~= line@);
    }
    out
}

/// Splits a text into its characters.
pub fn chars_of(line: &str) -> (out: Vec<String>)
    ensures
        text_views(out@) == split_chars(line@),
{
    let n = line.unicode_len();
    let mut out: Vec<String> = Vec::new();
    let mut i: usize = 0;
    while i < n
        invariant
            i <= n,
            n == line@.len(),
            text_views(out@) == Seq::new(i as nat, |j: int| seq![line@[j]]),
        decreases n - i,
    {
        let one = line.substring_char(i, i + 1);
        assert(one@ =~= seq![line@[i as int]]);
        let ghost done = text_views(out@);
        out.push(String::from_str(one));
        assert(text_views(out@) =~= done.push(one@));
        i += 1;
        assert(text_views(out@) =~= Seq::new(i as nat, |j: int| seq![line@[j]]));
    }
    out
}

impl FileIoReadProvider {
    /// The lines that are still to be read, the next one first.
    pub open spec fn pending(&self) -> Seq<Seq<char>> {
        text_views(self.lines@).reverse()
    }

    /// A reader over the lines of a file, given as they stand in the file. The reader
    /// hands them out in that order, each without its trailing white space.
    pub fn from_lines(file_path: &str, raw_lines: &Vec<String>) -> (reader: FileIoReadProvider)
        ensures
            reader.file_path@ == file_path@,
            reader.pending() == loaded_lines(text_views(raw_lines@)),
    {
        let n = raw_lines.len();
        let mut lines: Vec<String> = Vec::new();
        let mut left: usize = n;
        while left > 0
            invariant
                left <= n,
                n == raw_lines@.len(),
                lines@.len() == n - left,
                forall|j: int|
                    0 <= j < lines@.len() ==> (#[trigger] lines@[j])@ == trim_end_seq(
                        raw_lines@[n - 1 - j]@,
                    ),
            decreases left,
        {
            left -= 1;
            let kept = trim_end(raw_lines[left].as_str());
            lines.push(String::from_str(kept));
        }
        let reader = FileIoReadProvider { file_path: String::from_str(file_path), lines };
        assert(reader.pending() =~= loaded_lines(text_views(raw_lines@)));
        reader
    }
}

impl IoReader for FileIoReadProvider {
    /// Hands out the next line, or `None` when every line was read.
    fn read_line(&mut self) -> (line: Option<String>)
        ensures
            old(self).pending().len() == 0 ==> line is None && final(self).pending() == old(
                self,
            ).pending(),
            old(self).pending().len() > 0 ==> line is Some && line->0@ == old(self).pending()[0]
                && final(self).pending() == old(self).pending().drop_first(),
            final(self).file_path == old(self).file_path,
    {
        let line = self.lines.pop();
        proof {
            if old(self).lines@.len() > 0 {
                assert(self.pending() =~= old(self).pending().drop_first());
            }
        }
        line
    }
}

impl TcFileInput {
    /// The lines that are still to be read, the next one first.
    pub open spec fn pending(&self) -> Seq<Seq<char>> {
        self.file_handle.pending()
    }

    /// The input of the test case file `file_name`, whose lines are `raw_lines`. The
    /// file is looked for in the directory of the test case files.
    pub fn load_testfile(file_name: &str, raw_lines: &Vec<String>) -> (input: TcFileInput)
        ensures
            input.file_handle.file_path@ == CCC_INPUT_DIR@ + file_name@,
            input.pending() == loaded_lines(text_views(raw_lines@)),
    {
        let file_path = join(CCC_INPUT_DIR, file_name);
        TcFileInput { file_handle: FileIoReadProvider::from_lines(file_path.as_str(), raw_lines) }
    }

    /// Reads the next line.
    pub fn read_str(&mut self) -> (line: String)
        requires
            old(self).pending().len() > 0,
        ensures
            line@ == old(self).pending()[0],
            final(self).pending() == old(self).pending().drop_first(),
    {
        match self.file_handle.read_line() {
            Some(line) => line,
            None => String::new(),
        }
    }

    /// Reads the next line as a number: the number that the line denotes, or 0 where it
    /// denotes none of 32 bits.
    pub fn read_int(&mut self) -> (n: i32)
        requires
            old(self).pending().len() > 0,
        ensures
            n == (match i32_value(old(self).pending()[0]) {
                Some(v) => v,
                None => 0i32,
            }),
            final(self).pending() == old(self).pending().drop_first(),
    {
        let r = self.read_str();
        match parse_i32(r.as_str()) {
            Some(n) => n,
            None => 0,
        }
    }

    /// Reads the next line and splits it: into its words where `sep_by_space` is set,
    /// else into its characters.
    pub fn read_vec(&mut self, sep_by_space: bool) -> (parts: Vec<String>)
        requires
            old(self).pending().len() > 0,
        ensures
            text_views(parts@) == (if sep_by_space {
                split_words(old(self).pending()[0])
            } else {
                split_chars(old(self).pending()[0])
            }),
            final(self).pending() == old(self).pending().drop_first(),
    {
        let ln = self.read_str();
        if sep_by_space {
            words(ln.as_str())
        } else {
            chars_of(ln.as_str())
        }
    }
}

} // verus!
