use vstd::prelude::*;

use std::collections::VecDeque;

verus! {

broadcast use vstd::std_specs::vecdeque::group_vec_dequeue_axioms;

/// Capacity of a sound FIFO, in 8-bit samples.
pub const BUFFER_SIZE: usize = 32;

/// A direct-sound FIFO: signed 8-bit samples filled by DMA and played one
/// per overflow of the selected timer.
#[derive(Clone, Debug)]
pub struct DmaFifo {
    pub buffer: VecDeque<i8>,
    pub wants_dma: bool,
}

/// The unsigned sample (0 to 255) that a signed 8-bit sample plays as.
pub open spec fn unsigned_sample(sample: i8) -> u8 {
    (sample as int + 128) as u8
}

/// `buffer` with `sample` appended, unless the buffer is full.
pub open spec fn push_capped(buffer: Seq<i8>, sample: i8) -> Seq<i8> {
    if buffer.len() < BUFFER_SIZE {
        buffer.push(sample)
    } else {
        buffer
    }
}

/// The samples after the four bytes of `data` are written, least
/// significant byte first; bytes that do not fit in the buffer are dropped.
pub open spec fn written_samples(buffer: Seq<i8>, data: u32) -> Seq<i8> {
    let b0 = data as u8 as i8;
    let b1 = (data >> 8u32) as u8 as i8;
    let b2 = (data >> 16u32) as u8 as i8;
    let b3 = (data >> 24u32) as u8 as i8;
    push_capped(push_capped(push_capped(push_capped(buffer, b0), b1), b2), b3)
}

impl DmaFifo {
    pub open spec fn wf(&self) -> bool {
        self.buffer@.len() <= BUFFER_SIZE
    }

    pub fn new() -> (r: Self)
        ensures
            r.wf(),
            r.buffer@ == Seq::<i8>::empty(),
            !r.wants_dma,
    {
        DmaFifo { buffer: VecDeque::new(), wants_dma: false }
    }

    /// On an overflow of the selected timer, the oldest sample is dropped and
    /// the FIFO asks for more data once 16 or fewer samples remain.
    pub fn step(&mut self, timer_overflow: bool)
        requires
            old(self).wf(),
        ensures
            final(self).wf(),
            !timer_overflow ==> final(self).buffer@ == old(self).buffer@ && final(self).wants_dma
                == old(self).wants_dma,
            timer_overflow ==> final(self).buffer@ == (if old(self).buffer@.len() == 0 {
                old(self).buffer@
            } else {
                old(self).buffer@.drop_first()
            }),
            timer_overflow ==> final(self).wants_dma == (old(self).wants_dma
                || final(self).buffer@.len() <= 16),
    {
        if timer_overflow {
            let _ = self.buffer.pop_front();
            if self.buffer.len() <= 16 {
                self.wants_dma = true;
            }
        }
    }

    /// The current sample as an unsigned value from 0 to 255; 0 when empty.
    pub fn sample(&self) -> (r: u8)
        ensures
            self.buffer@.len() == 0 ==> r == 0,
            self.buffer@.len() > 0 ==> r == unsigned_sample(self.buffer@[0]),
    {
        if self.buffer.len() == 0 {
            return 0;
        }
        let current_sample = self.buffer[0];
        if current_sample == i8::MIN {
            0
        } else if current_sample < 0 {
            128 - ((-current_sample) as u8)
        } else {
            (current_sample as u8) + 128
        }
    }

    /// Appends the four bytes of `data`, least significant first, dropping
    /// those that would overflow the buffer.
    pub fn write_data(&mut self, data: u32)
        requires
            old(self).wf(),
        ensures
            final(self).wf(),
            final(self).buffer@ == written_samples(old(self).buffer@, data),
            final(self).wants_dma == old(self).wants_dma,
    {
        self.push_sample(data as u8 as i8);
        self.push_sample((data >> 8u32) as u8 as i8);
        self.push_sample((data >> 16u32) as u8 as i8);
        self.push_sample((data >> 24u32) as u8 as i8);
    }

    fn push_sample(&mut self, sample: i8)
        requires
            old(self).wf(),
        ensures
            final(self).wf(),
            final(self).buffer@ == push_capped(old(self).buffer@, sample),
            final(self).wants_dma == old(self).wants_dma,
    {
        if self.buffer.len() < BUFFER_SIZE {
            self.buffer.push_back(sample);
        }
    }

    /// Whether the FIFO asked for data since the last poll; clears the request.
    pub fn poll_wants_dma(&mut self) -> (r: bool)
        ensures
            r == old(self).wants_dma,
            !final(self).wants_dma,
            final(self).buffer@ == old(self).buffer@,
    {
        let result = self.wants_dma;
        self.wants_dma = false;
        result
    }
}

/// A signed sample plays as that sample offset by 128.
pub proof fn lemma_unsigned_sample_offset(sample: i8)
    ensures
        unsigned_sample(sample) as int == sample as int + 128,
{
}

impl Default for DmaFifo {
    fn default() -> (r: Self)
        ensures
            r.wf(),
            r.buffer@ == Seq::<i8>::empty(),
            !r.wants_dma,
    {
        DmaFifo::new()
    }
}

} // verus!
