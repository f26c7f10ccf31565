//! Building source text line by line and block by block.

use vstd::prelude::*;
use vstd::string::StringExecFns;

verus! {

/// `n` copies of a piece of text, one after another.
pub open spec fn repeated(piece: Seq<char>, n: nat) -> Seq<char>
    decreases n,
{
    if n == 0 {
        Seq::empty()
    } else {
        repeated(piece, (n - 1) as nat) + piece
    }
}

/// The indentation of a line at a nesting level: one tab for each level.
pub open spec fn tabs(level: nat) -> Seq<char> {
    repeated("\t"@, level)
}

/// `n` copies of a piece of text, one after another.
pub fn repeat_str(piece: &str, n: usize) -> (r: String)
    ensures
        r@ == repeated(piece@, n as nat),
{
    let mut out = String::new();
    let mut i: usize = 0;
    while i < n
        invariant
            i <= n,
            out@ == repeated(piece@, i as nat),
        decreases n - i,
    {
        out.append(piece);
        i += 1;
    }
    out
}

/// A block of source text: the lines inside it, the nesting level at which
/// they stand, and the text that introduces the block. The block at level 0
/// is the file itself.
#[derive(Debug, PartialEq, Eq, Default)]
pub struct Block {
    /// Nesting level of the lines inside the block; 0 is the file itself.
    level: usize,
    /// Text before the opening brace.
    content_before_block: Option<String>,
    /// The lines inside the block.
    content: String,
}

/// Mathematical model of a [`Block`].
pub struct BlockView {
    pub level: nat,
    pub content_before_block: Option<Seq<char>>,
    pub content: Seq<char>,
}

impl BlockView {
    /// An empty block whose lines stand at the given level, introduced by the
    /// given text.
    pub open spec fn fresh(level: nat, before: Option<Seq<char>>) -> BlockView {
        BlockView { level, content_before_block: before, content: Seq::empty() }
    }

    /// The block with one more line if the condition holds.
    pub open spec fn with_line_if(self, cond: bool, text: Seq<char>) -> BlockView {
        if cond {
            self.with_line(text)
        } else {
            self
        }
    }

    /// The block with one more line, indented to the block's level.
    pub open spec fn with_line(self, text: Seq<char>) -> BlockView {
        BlockView { content: self.content + tabs(self.level) + text + "\n"@, ..self }
    }

    /// The block with `count` empty lines more.
    pub open spec fn with_skip(self, count: nat) -> BlockView {
        BlockView { content: self.content + repeated("\n"@, count), ..self }
    }

    /// The text of the block. The file itself is its lines. Any other block
    /// is its introduction and the opening brace, indented one level less
    /// than its lines, then its lines and the closing brace on a line of its
    /// own; an empty block closes on the line on which it opens.
    pub open spec fn rendered(self) -> Seq<char> {
        if self.level == 0 {
            self.content
        } else {
            let indent = tabs((self.level - 1) as nat);
            let upper = match self.content_before_block {
                Some(before) => indent + before + " "@ + "{"@,
                None => indent + "{"@,
            };
            if self.content.len() == 0 {
                upper + "}"@
            } else {
                upper + "\n"@ + self.content + indent + "}"@
            }
        }
    }

    /// The block with another block's text added as its next lines.
    pub open spec fn with_block(self, inner: BlockView) -> BlockView {
        BlockView { content: self.content + inner.rendered() + "\n"@, ..self }
    }

    /// The block with the text of each of the blocks added in order, an
    /// empty line before each.
    pub open spec fn with_blocks(self, inner: Seq<BlockView>) -> BlockView
        decreases inner.len(),
    {
        if inner.len() == 0 {
            self
        } else {
            let front = self.with_blocks(inner.drop_last());
            BlockView {
                content: front.content + "\n"@ + inner.last().rendered() + "\n"@,
                ..front
            }
        }
    }
}

impl View for Block {
    type V = BlockView;

    closed spec fn view(&self) -> BlockView {
        BlockView {
            level: self.level as nat,
            content_before_block: self.content_before_block.deep_view(),
            content: self.content@,
        }
    }
}

impl DeepView for Block {
    type V = BlockView;

    open spec fn deep_view(&self) -> BlockView {
        self@
    }
}

impl Clone for Block {
    fn clone(&self) -> (r: Self)
        ensures
            r@ == self@,
    {
        Block {
            level: self.level,
            content_before_block: crate::text::clone_opt_string(&self.content_before_block),
            content: self.content.clone(),
        }
    }
}

impl Block {
    /// The empty file.
    pub fn root() -> (r: Self)
        ensures
            r@ == (BlockView { level: 0, content_before_block: None, content: Seq::empty() }),
    {
        Block { level: 0, content_before_block: None, content: String::new() }
    }

    /// An empty block whose lines stand at the given level, introduced by the
    /// given text.
    pub fn new(level: usize, before_block_content: Option<&str>) -> (r: Self)
        ensures
            r@ == (BlockView {
                level: level as nat,
                content_before_block: match before_block_content {
                    Some(text) => Some(text@),
                    None => None,
                },
                content: Seq::empty(),
            }),
    {
        let content = match before_block_content {
            Some(text) => Some(text.to_owned()),
            None => None,
        };
        Block { level, content_before_block: content, content: String::new() }
    }

    /// Adds a line with the given text.
    pub fn line(self, line_content: &str) -> (r: Self)
        ensures
            r@ == self@.with_line(line_content@),
    {
        let mut out = self;
        let indent = repeat_str("\t", out.level);
        out.content.append(indent.as_str());
        out.content.append(line_content);
        out.content.append("\n");
        out
    }

    /// Adds a line with the given text if the condition holds.
    pub fn line_cond(self, cond: bool, line_content: &str) -> (r: Self)
        ensures
            r@ == if cond {
                self@.with_line(line_content@)
            } else {
                self@
            },
    {
        if !cond {
            return self;
        }
        self.line(line_content)
    }

    /// Adds the given number of empty lines.
    pub fn line_skip(self, line_count: usize) -> (r: Self)
        ensures
            r@ == self@.with_skip(line_count as nat),
    {
        let mut out = self;
        let lines = repeat_str("\n", line_count);
        out.content.append(lines.as_str());
        out
    }

    /// Adds the text of another block.
    pub fn block(self, block: Block) -> (r: Self)
        ensures
            r@ == self@.with_block(block@),
    {
        let mut out = self;
        let text = block.to_string();
        out.content.append(text.as_str());
        out.content.append("\n");
        out
    }

    /// Adds the text of each of the blocks, an empty line before each.
    pub fn block_vec(self, block_vec: Vec<Block>) -> (r: Self)
        ensures
            r@ == self@.with_blocks(block_vec.deep_view()),
    {
        let ghost all = block_vec.deep_view();
        let mut out = self;
        let mut i: usize = 0;
        assert(all.take(0) =~= Seq::empty());
        while i < block_vec.len()
            invariant
                i <= block_vec.len(),
                all == block_vec.deep_view(),
                out@ == self@.with_blocks(all.take(i as int)),
            decreases block_vec.len() - i,
        {
            proof {
                assert(all.take(i + 1).drop_last() =~= all.take(i as int));
                assert(all.take(i + 1).last() == block_vec[i as int]@);
            }
            let text = block_vec[i].to_string();
            out.content.append("\n");
            out.content.append(text.as_str());
            out.content.append("\n");
            i += 1;
        }
        assert(all.take(block_vec.len() as int) =~= all);
        out
    }

    /// The text of the block.
    pub fn to_string(&self) -> (r: String)
        ensures
            r@ == self@.rendered(),
    {
        if self.level == 0 {
            return self.content.clone();
        }
        let mut out = repeat_str("\t", self.level - 1);
        let indent = out.clone();
        match &self.content_before_block {
            Some(before) => {
                out.append(before.as_str());
                out.append(" ");
                out.append("{");
            },
            None => {
                out.append("{");
            },
        }
        if self.content.as_str().is_empty() {
            out.append("}");
        } else {
            out.append("\n");
            out.append(self.content.as_str());
            out.append(indent.as_str());
            out.append("}");
        }
        out
    }
}

/// A source file under construction.
#[derive(Debug, PartialEq, Eq)]
pub struct Codegen {
    root_block: Block,
}

impl View for Codegen {
    type V = BlockView;

    closed spec fn view(&self) -> BlockView {
        self.root_block@
    }
}

impl Clone for Codegen {
    fn clone(&self) -> (r: Self)
        ensures
            r@ == self@,
    {
        Codegen { root_block: self.root_block.clone() }
    }
}

impl Codegen {
    /// The empty file.
    pub fn new() -> (r: Self)
        ensures
            r@ == (BlockView { level: 0, content_before_block: None, content: Seq::empty() }),
    {
        Codegen { root_block: Block::root() }
    }

    /// Adds a line with the given text.
    pub fn line(self, line_content: &str) -> (r: Self)
        ensures
            r@ == self@.with_line(line_content@),
    {
        Codegen { root_block: self.root_block.line(line_content) }
    }

    /// Adds a line with the given text if the condition holds.
    pub fn line_cond(self, cond: bool, line_content: &str) -> (r: Self)
        ensures
            r@ == if cond {
                self@.with_line(line_content@)
            } else {
                self@
            },
    {
        Codegen { root_block: self.root_block.line_cond(cond, line_content) }
    }

    /// Adds the given number of empty lines.
    pub fn line_skip(self, line_count: usize) -> (r: Self)
        ensures
            r@ == self@.with_skip(line_count as nat),
    {
        Codegen { root_block: self.root_block.line_skip(line_count) }
    }

    /// Adds the text of a block.
    pub fn block(self, block: Block) -> (r: Self)
        ensures
            r@ == self@.with_block(block@),
    {
        Codegen { root_block: self.root_block.block(block) }
    }

    /// Adds the text of each of the blocks, an empty line before each.
    pub fn block_vec(self, block_vec: Vec<Block>) -> (r: Self)
        ensures
            r@ == self@.with_blocks(block_vec.deep_view()),
    {
        Codegen { root_block: self.root_block.block_vec(block_vec) }
    }

    /// The text of the file.
    pub fn to_string(&self) -> (r: String)
        ensures
            r@ == self@.rendered(),
    {
        self.root_block.to_string()
    }
}

} // verus!
