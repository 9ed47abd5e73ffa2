//! GP0 command buffer: up to 12 accumulated 32-bit words, filled one word
//! at a time until the decoded command length is reached.

use vstd::prelude::*;

verus! {

pub struct CommandBuffer {
    buffer: Vec<u32>,
    len: u8,
}

impl CommandBuffer {
    /// The words accumulated so far.
    pub closed spec fn view(&self) -> Seq<u32> {
        self.buffer@.take(self.len as int)
    }

    pub closed spec fn wf(&self) -> bool {
        self.buffer@.len() == 12 && self.len <= 12
    }

    /// A well-formed buffer holds at most 12 words.
    pub proof fn lemma_len_bound(&self)
        requires
            self.wf(),
        ensures
            self@.len() <= 12,
    {
    }

    pub fn new() -> (r: CommandBuffer)
        ensures
            r.wf(),
            r@.len() == 0,
    {
        let buffer: Vec<u32> = vec![0u32; 12];
        CommandBuffer { buffer, len: 0 }
    }

    pub fn clear(&mut self)
        requires
            old(self).wf(),
        ensures
            final(self).wf(),
            final(self)@.len() == 0,
    {
        self.len = 0;
    }

    /// The number of accumulated words.
    pub fn len(&self) -> (r: usize)
        requires
            self.wf(),
        ensures
            r == self@.len(),
    {
        self.len as usize
    }

    pub fn push_word(&mut self, word: u32)
        requires
            old(self).wf(),
            old(self)@.len() < 12,
        ensures
            final(self).wf(),
            final(self)@ == old(self)@.push(word),
    {
        let i = self.len as usize;
        self.buffer[i] = word;
        self.len = self.len + 1;
        proof {
            assert(final(self)@ =~= old(self)@.push(word));
        }
    }

    /// The first word of the buffered command.
    pub fn val1(&self) -> (r: u32)
        requires
            self.wf(),
            self@.len() >= 1,
        ensures
            r == self@[0],
    {
        self.buffer[0]
    }

    /// The word at `index`.
    pub fn word(&self, index: usize) -> (r: u32)
        requires
            self.wf(),
            index < self@.len(),
        ensures
            r == self@[index as int],
    {
        self.buffer[index]
    }
}

} // verus!
