//! Bottleneck blocks: the plain one, the cross-stage-partial one that stacks
//! several of them, and the spatial-pyramid-pooling one.

use vstd::prelude::*;

use super::blocks::{expand, spec_expand, BaseConvConfig, BaseConvSpec, Factor};

verus! {

/// What a standard bottleneck block is made of: a 1x1 convolution, then a 3x3
/// convolution, and optionally the input added to the result.
pub struct BottleneckSpec {
    pub conv1: BaseConvSpec,
    pub conv2: BaseConvSpec,
    pub shortcut: bool,
}

impl BottleneckSpec {
    /// The block for the given channels. Its hidden layer is as wide as its
    /// output.
    pub open spec fn new(in_channels: nat, out_channels: nat, shortcut: bool) -> Self {
        BottleneckSpec {
            conv1: BaseConvSpec::new(in_channels, out_channels, 1, 1, 1),
            conv2: BaseConvSpec::new(out_channels, out_channels, 3, 1, 1),
            shortcut,
        }
    }

    /// The number of channels that the block reads.
    pub open spec fn in_channels(self) -> nat {
        self.conv1.in_channels
    }

    /// The number of channels that the block writes.
    pub open spec fn out_channels(self) -> nat {
        self.conv2.out_channels
    }

    /// The second convolution reads what the first one writes, neither changes
    /// the height or width, and where the input is added to the output both
    /// have the same number of channels.
    pub open spec fn wf(self) -> bool {
        &&& self.conv1.wf()
        &&& self.conv2.wf()
        &&& self.conv1.keeps_size()
        &&& self.conv2.keeps_size()
        &&& self.conv2.in_channels == self.conv1.out_channels
        &&& self.shortcut ==> self.in_channels() == self.out_channels()
    }

    /// A new block is well formed exactly when its shortcut, if it has one,
    /// joins as many channels as the block writes.
    pub proof fn lemma_new_wf(in_channels: nat, out_channels: nat, shortcut: bool)
        ensures
            Self::new(in_channels, out_channels, shortcut).wf() <==> (shortcut ==> in_channels
                == out_channels),
    {
    }
}

/// Bottleneck block configuration.
pub struct BottleneckConfig {
    conv1: BaseConvConfig,
    conv2: BaseConvConfig,
    shortcut: bool,
}

impl View for BottleneckConfig {
    type V = BottleneckSpec;

    closed spec fn view(&self) -> BottleneckSpec {
        BottleneckSpec { conv1: self.conv1@, conv2: self.conv2@, shortcut: self.shortcut }
    }
}

impl BottleneckConfig {
    /// Create a new instance of the bottleneck block configuration.
    ///
    /// Any channels are accepted. The block is well formed unless it has a
    /// shortcut and reads another number of channels than it writes.
    pub fn new(in_channels: usize, out_channels: usize, shortcut: bool) -> (res: Self)
        ensures
            res@ == BottleneckSpec::new(in_channels as nat, out_channels as nat, shortcut),
            res@.wf() <==> (shortcut ==> in_channels == out_channels),
    {
        let hidden_channels: usize = out_channels;
        let conv1 = BaseConvConfig::new(in_channels, hidden_channels, 1, 1, 1);
        let conv2 = BaseConvConfig::new(hidden_channels, out_channels, 3, 1, 1);
        BottleneckConfig { conv1, conv2, shortcut }
    }

    /// The 1x1 convolution.
    pub fn conv1(&self) -> (res: &BaseConvConfig)
        ensures
            res@ == self@.conv1,
    {
        &self.conv1
    }

    /// The 3x3 convolution.
    pub fn conv2(&self) -> (res: &BaseConvConfig)
        ensures
            res@ == self@.conv2,
    {
        &self.conv2
    }

    /// Whether the input is added to the result.
    pub fn shortcut(&self) -> (res: bool)
        ensures
            res == self@.shortcut,
    {
        self.shortcut
    }
}

/// What a cross-stage-partial bottleneck is made of. The input goes through
/// two 1x1 convolutions side by side; the result of the first runs through a
/// chain of bottleneck blocks; both branches are then stacked along the
/// channels and read by a third 1x1 convolution.
pub struct CspBottleneckSpec {
    pub conv1: BaseConvSpec,
    pub conv2: BaseConvSpec,
    pub conv3: BaseConvSpec,
    pub blocks: Seq<BottleneckSpec>,
}

impl CspBottleneckSpec {
    /// The block for the given channels with `num_blocks` inner bottlenecks,
    /// whose branches are `expansion` thousandths as wide as its output.
    pub open spec fn new(
        in_channels: nat,
        out_channels: nat,
        num_blocks: nat,
        expansion: nat,
        shortcut: bool,
    ) -> Self {
        let hidden_channels = spec_expand(out_channels, expansion);
        CspBottleneckSpec {
            conv1: BaseConvSpec::new(in_channels, hidden_channels, 1, 1, 1),
            conv2: BaseConvSpec::new(in_channels, hidden_channels, 1, 1, 1),
            conv3: BaseConvSpec::new(2 * hidden_channels, out_channels, 1, 1, 1),
            blocks: Seq::new(
                num_blocks,
                |i: int| BottleneckSpec::new(hidden_channels, hidden_channels, shortcut),
            ),
        }
    }

    /// The number of channels that the block reads.
    pub open spec fn in_channels(self) -> nat {
        self.conv1.in_channels
    }

    /// The number of channels of each of the two branches.
    pub open spec fn hidden_channels(self) -> nat {
        self.conv1.out_channels
    }

    /// The number of channels that the block writes.
    pub open spec fn out_channels(self) -> nat {
        self.conv3.out_channels
    }

    /// Both branches read the same input and are equally wide, every inner
    /// bottleneck is well formed and keeps that width, the last convolution
    /// reads the two branches stacked, and nothing changes the height or width.
    pub open spec fn wf(self) -> bool {
        &&& self.conv1.wf()
        &&& self.conv2.wf()
        &&& self.conv3.wf()
        &&& self.conv1.keeps_size()
        &&& self.conv2.keeps_size()
        &&& self.conv3.keeps_size()
        &&& self.conv2.in_channels == self.conv1.in_channels
        &&& self.conv2.out_channels == self.conv1.out_channels
        &&& self.conv3.in_channels == self.conv1.out_channels + self.conv2.out_channels
        &&& forall|i: int|
            0 <= i < self.blocks.len() ==> {
                &&& (#[trigger] self.blocks[i]).wf()
                &&& self.blocks[i].in_channels() == self.hidden_channels()
                &&& self.blocks[i].out_channels() == self.hidden_channels()
            }
    }

    /// Every new block is well formed, reads and writes the channels it was
    /// asked for, and holds the number of bottlenecks it was asked for.
    pub proof fn lemma_new_wf(
        in_channels: nat,
        out_channels: nat,
        num_blocks: nat,
        expansion: nat,
        shortcut: bool,
    )
        ensures
            Self::new(in_channels, out_channels, num_blocks, expansion, shortcut).wf(),
            Self::new(in_channels, out_channels, num_blocks, expansion, shortcut).in_channels()
                == in_channels,
            Self::new(in_channels, out_channels, num_blocks, expansion, shortcut).out_channels()
                == out_channels,
            Self::new(in_channels, out_channels, num_blocks, expansion, shortcut).blocks.len()
                == num_blocks,
    {
    }
}

/// Cross-stage-partial bottleneck block configuration.
pub struct CspBottleneckConfig {
    conv1: BaseConvConfig,
    conv2: BaseConvConfig,
    conv3: BaseConvConfig,
    blocks: Vec<BottleneckConfig>,
}

impl View for CspBottleneckConfig {
    type V = CspBottleneckSpec;

    closed spec fn view(&self) -> CspBottleneckSpec {
        CspBottleneckSpec {
            conv1: self.conv1@,
            conv2: self.conv2@,
            conv3: self.conv3@,
            blocks: Seq::new(self.blocks@.len(), |i: int| self.blocks@[i]@),
        }
    }
}

impl CspBottleneckConfig {
    /// Create a new instance of the cross-stage-partial bottleneck block
    /// configuration.
    ///
    /// The expansion must be above zero and at most one, and the two branches
    /// together must have a number of channels that fits in `usize`.
    pub fn new(
        in_channels: usize,
        out_channels: usize,
        num_blocks: usize,
        expansion: Factor,
        shortcut: bool,
    ) -> (res: Self)
        requires
            0 < expansion@ <= 1000,
            2 * spec_expand(out_channels as nat, expansion@) <= usize::MAX,
        ensures
            res@ == CspBottleneckSpec::new(
                in_channels as nat,
                out_channels as nat,
                num_blocks as nat,
                expansion@,
                shortcut,
            ),
            res@.wf(),
    {
        let hidden_channels: usize = expand(out_channels, expansion);
        let conv1 = BaseConvConfig::new(in_channels, hidden_channels, 1, 1, 1);
        let conv2 = BaseConvConfig::new(in_channels, hidden_channels, 1, 1, 1);
        let conv3 = BaseConvConfig::new(2 * hidden_channels, out_channels, 1, 1, 1);
        let mut blocks: Vec<BottleneckConfig> = Vec::new();
        let mut i: usize = 0;
        while i < num_blocks
            invariant
                i <= num_blocks,
                blocks@.len() == i,
                forall|j: int|
                    0 <= j < i ==> (#[trigger] blocks@[j])@ == BottleneckSpec::new(
                        hidden_channels as nat,
                        hidden_channels as nat,
                        shortcut,
                    ),
            decreases num_blocks - i,
        {
            blocks.push(BottleneckConfig::new(hidden_channels, hidden_channels, shortcut));
            i = i + 1;
        }
        let res = CspBottleneckConfig { conv1, conv2, conv3, blocks };
        proof {
            let spec = CspBottleneckSpec::new(
                in_channels as nat,
                out_channels as nat,
                num_blocks as nat,
                expansion@,
                shortcut,
            );
            assert(res@.blocks =~= spec.blocks);
            CspBottleneckSpec::lemma_new_wf(
                in_channels as nat,
                out_channels as nat,
                num_blocks as nat,
                expansion@,
                shortcut,
            );
        }
        res
    }

    /// The convolution at the head of the branch that runs through the inner
    /// bottlenecks.
    pub fn conv1(&self) -> (res: &BaseConvConfig)
        ensures
            res@ == self@.conv1,
    {
        &self.conv1
    }

    /// The convolution that makes up the other branch.
    pub fn conv2(&self) -> (res: &BaseConvConfig)
        ensures
            res@ == self@.conv2,
    {
        &self.conv2
    }

    /// The convolution that reads both branches.
    pub fn conv3(&self) -> (res: &BaseConvConfig)
        ensures
            res@ == self@.conv3,
    {
        &self.conv3
    }

    /// The inner bottlenecks, in the order in which they are applied.
    pub fn blocks(&self) -> (res: &[BottleneckConfig])
        ensures
            res@.len() == self@.blocks.len(),
            forall|i: int| 0 <= i < res@.len() ==> (#[trigger] res@[i])@ == self@.blocks[i],
    {
        self.blocks.as_slice()
    }
}

/// What a max pooling layer is made of: a square window that moves by one
/// position at a time over an input padded by half the window on every side.
pub struct MaxPoolSpec {
    pub kernel_size: nat,
    pub stride: nat,
    pub padding: nat,
}

impl MaxPoolSpec {
    /// The pooling layer with a window of the given size.
    pub open spec fn new(kernel_size: nat) -> Self {
        MaxPoolSpec { kernel_size, stride: 1, padding: kernel_size / 2 }
    }

    /// The window moves by one position at a time and the padding makes up
    /// for its size: the settings under which a pooling layer writes as many
    /// rows and columns as it reads.
    pub open spec fn keeps_size(self) -> bool {
        &&& self.stride == 1
        &&& self.kernel_size == 2 * self.padding + 1
    }
}

/// Max pooling layer configuration.
pub struct MaxPoolConfig {
    kernel_size: usize,
    stride: usize,
    padding: usize,
}

impl View for MaxPoolConfig {
    type V = MaxPoolSpec;

    closed spec fn view(&self) -> MaxPoolSpec {
        MaxPoolSpec {
            kernel_size: self.kernel_size as nat,
            stride: self.stride as nat,
            padding: self.padding as nat,
        }
    }
}

impl MaxPoolConfig {
    /// Create a new instance of the max pooling layer configuration.
    pub fn new(kernel_size: usize) -> (res: Self)
        ensures
            res@ == MaxPoolSpec::new(kernel_size as nat),
    {
        MaxPoolConfig { kernel_size, stride: 1, padding: kernel_size / 2 }
    }

    /// The height and width of the window.
    pub fn kernel_size(&self) -> (res: usize)
        ensures
            res == self@.kernel_size,
    {
        self.kernel_size
    }

    /// The step of the window, down and across.
    pub fn stride(&self) -> (res: usize)
        ensures
            res == self@.stride,
    {
        self.stride
    }

    /// The padding on each side of the input.
    pub fn padding(&self) -> (res: usize)
        ensures
            res == self@.padding,
    {
        self.padding
    }
}

/// The window sizes of the pooling layers of a spatial-pyramid-pooling block.
pub const SPP_POOLING: [usize; 3] = [5, 9, 13];

/// What a spatial-pyramid-pooling bottleneck is made of. A 1x1 convolution
/// halves the channels; its result is pooled with windows of several sizes;
/// the result and its pooled copies are stacked along the channels and read by
/// a second 1x1 convolution.
pub struct SppBottleneckSpec {
    pub conv1: BaseConvSpec,
    pub conv2: BaseConvSpec,
    pub pooling: Seq<MaxPoolSpec>,
}

impl SppBottleneckSpec {
    /// The block for the given channels.
    pub open spec fn new(in_channels: nat, out_channels: nat) -> Self {
        let hidden_channels = in_channels / 2;
        SppBottleneckSpec {
            conv1: BaseConvSpec::new(in_channels, hidden_channels, 1, 1, 1),
            conv2: BaseConvSpec::new(4 * hidden_channels, out_channels, 1, 1, 1),
            pooling: seq![MaxPoolSpec::new(5), MaxPoolSpec::new(9), MaxPoolSpec::new(13)],
        }
    }

    /// The number of channels that the block reads.
    pub open spec fn in_channels(self) -> nat {
        self.conv1.in_channels
    }

    /// The number of channels that the block writes.
    pub open spec fn out_channels(self) -> nat {
        self.conv2.out_channels
    }

    /// Nothing changes the height or width, so that the pooled copies can be
    /// stacked, and the second convolution reads the result of the first
    /// together with one copy per pooling layer.
    pub open spec fn wf(self) -> bool {
        &&& self.conv1.wf()
        &&& self.conv2.wf()
        &&& self.conv1.keeps_size()
        &&& self.conv2.keeps_size()
        &&& forall|i: int| 0 <= i < self.pooling.len() ==> (#[trigger] self.pooling[i]).keeps_size()
        &&& self.conv2.in_channels == (self.pooling.len() + 1) * self.conv1.out_channels
    }

    /// Every new block is well formed and reads and writes the channels it was
    /// asked for.
    pub proof fn lemma_new_wf(in_channels: nat, out_channels: nat)
        ensures
            Self::new(in_channels, out_channels).wf(),
            Self::new(in_channels, out_channels).in_channels() == in_channels,
            Self::new(in_channels, out_channels).out_channels() == out_channels,
    {
    }
}

/// Spatial-pyramid-pooling bottleneck block configuration.
pub struct SppBottleneckConfig {
    conv1: BaseConvConfig,
    conv2: BaseConvConfig,
    pooling: Vec<MaxPoolConfig>,
}

impl View for SppBottleneckConfig {
    type V = SppBottleneckSpec;

    closed spec fn view(&self) -> SppBottleneckSpec {
        SppBottleneckSpec {
            conv1: self.conv1@,
            conv2: self.conv2@,
            pooling: Seq::new(self.pooling@.len(), |i: int| self.pooling@[i]@),
        }
    }
}

impl SppBottleneckConfig {
    /// Create a new instance of the spatial-pyramid-pooling bottleneck block
    /// configuration.
    ///
    /// Four times half the input channels must fit in `usize`.
    pub fn new(in_channels: usize, out_channels: usize) -> (res: Self)
        requires
            4 * (in_channels / 2) <= usize::MAX,
        ensures
            res@ == SppBottleneckSpec::new(in_channels as nat, out_channels as nat),
            res@.wf(),
    {
        let hidden_channels: usize = in_channels / 2;
        // conv1 output + one copy per pooling layer
        let conv2_channels: usize = hidden_channels * 4;
        let conv1 = BaseConvConfig::new(in_channels, hidden_channels, 1, 1, 1);
        let conv2 = BaseConvConfig::new(conv2_channels, out_channels, 1, 1, 1);
        let mut pooling: Vec<MaxPoolConfig> = Vec::new();
        let mut i: usize = 0;
        while i < 3
            invariant
                i <= 3,
                pooling@.len() == i,
                forall|j: int|
                    0 <= j < i ==> (#[trigger] pooling@[j])@ == MaxPoolSpec::new(
                        SPP_POOLING@[j] as nat,
                    ),
            decreases 3 - i,
        {
            pooling.push(MaxPoolConfig::new(SPP_POOLING[i]));
            i = i + 1;
        }
        let res = SppBottleneckConfig { conv1, conv2, pooling };
        proof {
            let spec = SppBottleneckSpec::new(in_channels as nat, out_channels as nat);
            assert(res@.pooling =~= spec.pooling);
            SppBottleneckSpec::lemma_new_wf(in_channels as nat, out_channels as nat);
        }
        res
    }

    /// The convolution that halves the channels.
    pub fn conv1(&self) -> (res: &BaseConvConfig)
        ensures
            res@ == self@.conv1,
    {
        &self.conv1
    }

    /// The convolution that reads the stacked copies.
    pub fn conv2(&self) -> (res: &BaseConvConfig)
        ensures
            res@ == self@.conv2,
    {
        &self.conv2
    }

    /// The pooling layers, from the smallest window to the largest.
    pub fn pooling(&self) -> (res: &[MaxPoolConfig])
        ensures
            res@.len() == self@.pooling.len(),
            forall|i: int| 0 <= i < res@.len() ==> (#[trigger] res@[i])@ == self@.pooling[i],
    {
        self.pooling.as_slice()
    }
}

} // verus!
