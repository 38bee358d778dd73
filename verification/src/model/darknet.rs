//! The CSPDarknet-53 backbone and the blocks it is assembled from.

use vstd::prelude::*;

use super::blocks::{
    expand, spec_expand, BaseConvConfig, BaseConvSpec, Factor, FocusConfig, FocusSpec,
};
use super::bottleneck::{
    CspBottleneckConfig, CspBottleneckSpec, SppBottleneckConfig, SppBottleneckSpec,
};

verus! {

/// What a CSP block is made of: a 3x3 convolution of stride 2, which halves
/// the height and width, then a cross-stage-partial bottleneck whose branches
/// are half as wide as its output. The last block of the backbone holds a
/// spatial-pyramid-pooling bottleneck between the two, and its inner
/// bottlenecks then have no shortcut.
pub struct CspBlockSpec {
    pub conv: BaseConvSpec,
    pub c3: CspBottleneckSpec,
    pub spp: Option<SppBottleneckSpec>,
}

impl CspBlockSpec {
    /// The block for the given channels, with `depth` inner bottlenecks, and
    /// with a spatial-pyramid-pooling bottleneck if `spp` is set.
    pub open spec fn new(in_channels: nat, out_channels: nat, depth: nat, spp: bool) -> Self {
        CspBlockSpec {
            conv: BaseConvSpec::new(in_channels, out_channels, 3, 2, 1),
            c3: CspBottleneckSpec::new(out_channels, out_channels, depth, 500, !spp),
            spp: if spp {
                Some(SppBottleneckSpec::new(out_channels, out_channels))
            } else {
                None
            },
        }
    }

    /// The number of channels that the block reads.
    pub open spec fn in_channels(self) -> nat {
        self.conv.in_channels
    }

    /// The number of channels that the block writes.
    pub open spec fn out_channels(self) -> nat {
        self.c3.out_channels()
    }

    /// The number of inner bottlenecks.
    pub open spec fn depth(self) -> nat {
        self.c3.blocks.len()
    }

    /// Each part is well formed and reads as many channels as the part before
    /// it writes.
    pub open spec fn wf(self) -> bool {
        &&& self.conv.wf()
        &&& self.c3.wf()
        &&& match self.spp {
            Some(spp) => {
                &&& spp.wf()
                &&& spp.in_channels() == self.conv.out_channels
                &&& self.c3.in_channels() == spp.out_channels()
            },
            None => self.c3.in_channels() == self.conv.out_channels,
        }
    }

    /// Every new block is well formed, reads and writes the channels it was
    /// asked for, and is as deep as it was asked to be.
    pub proof fn lemma_new_wf(in_channels: nat, out_channels: nat, depth: nat, spp: bool)
        ensures
            Self::new(in_channels, out_channels, depth, spp).wf(),
            Self::new(in_channels, out_channels, depth, spp).in_channels() == in_channels,
            Self::new(in_channels, out_channels, depth, spp).out_channels() == out_channels,
            Self::new(in_channels, out_channels, depth, spp).depth() == depth,
    {
        CspBottleneckSpec::lemma_new_wf(out_channels, out_channels, depth, 500, !spp);
        SppBottleneckSpec::lemma_new_wf(out_channels, out_channels);
    }
}

/// CSP block configuration.
pub struct CspBlockConfig {
    conv: BaseConvConfig,
    c3: CspBottleneckConfig,
    spp: Option<SppBottleneckConfig>,
}

impl View for CspBlockConfig {
    type V = CspBlockSpec;

    closed spec fn view(&self) -> CspBlockSpec {
        CspBlockSpec {
            conv: self.conv@,
            c3: self.c3@,
            spp: match self.spp {
                Some(spp) => Some(spp@),
                None => None,
            },
        }
    }
}

impl CspBlockConfig {
    /// Create a new instance of the CSP block configuration.
    ///
    /// With `spp` set, four times half the output channels must fit in
    /// `usize`.
    pub fn new(in_channels: usize, out_channels: usize, depth: usize, spp: bool) -> (res: Self)
        requires
            spp ==> 4 * (out_channels / 2) <= usize::MAX,
        ensures
            res@ == CspBlockSpec::new(in_channels as nat, out_channels as nat, depth as nat, spp),
            res@.wf(),
    {
        let conv = BaseConvConfig::new(in_channels, out_channels, 3, 2, 1);
        let c3 = CspBottleneckConfig::new(
            out_channels,
            out_channels,
            depth,
            Factor::from_thousandths(500),
            !spp,
        );

        let spp = if spp {
            Some(SppBottleneckConfig::new(out_channels, out_channels))
        } else {
            None
        };

        proof {
            CspBlockSpec::lemma_new_wf(
                in_channels as nat,
                out_channels as nat,
                depth as nat,
                spp is Some,
            );
        }
        CspBlockConfig { conv, c3, spp }
    }

    /// The convolution that halves the height and width.
    pub fn conv(&self) -> (res: &BaseConvConfig)
        ensures
            res@ == self@.conv,
    {
        &self.conv
    }

    /// The cross-stage-partial bottleneck.
    pub fn c3(&self) -> (res: &CspBottleneckConfig)
        ensures
            res@ == self@.c3,
    {
        &self.c3
    }

    /// The spatial-pyramid-pooling bottleneck, if the block has one.
    pub fn spp(&self) -> (res: Option<&SppBottleneckConfig>)
        ensures
            match res {
                Some(spp) => self@.spp == Some(spp@),
                None => self@.spp is None,
            },
    {
        self.spp.as_ref()
    }
}

/// The depth factors of the YOLOX family: 0.33, 0.67, 1.0 and 1.33, in
/// thousandths.
pub open spec fn valid_depth(depth: nat) -> bool {
    depth == 330 || depth == 670 || depth == 1000 || depth == 1330
}

/// The width factors of the YOLOX family: 0.25, 0.375, 0.5, 0.75, 1.0 and
/// 1.25, in thousandths.
pub open spec fn valid_width(width: nat) -> bool {
    width == 250 || width == 375 || width == 500 || width == 750 || width == 1000 || width
        == 1250
}

/// The number of channels that the stem writes: 64 scaled by the width factor.
pub open spec fn base_channels(width: nat) -> nat {
    spec_expand(64, width)
}

/// The number of inner bottlenecks of the first and of the last block: three
/// scaled by the depth factor, rounded to the nearest whole number with halves
/// rounded up, and at least one.
pub open spec fn base_depth(depth: nat) -> nat {
    let rounded = (3 * depth + 500) / 1000;
    if rounded >= 1 {
        rounded
    } else {
        1
    }
}

/// What the CSPDarknet-53 backbone is made of: a focus block that reads RGB
/// images, followed by four CSP blocks, each of which doubles the channels.
pub struct CspDarknetSpec {
    pub stem: FocusSpec,
    pub dark2: CspBlockSpec,
    pub dark3: CspBlockSpec,
    pub dark4: CspBlockSpec,
    pub dark5: CspBlockSpec,
}

impl CspDarknetSpec {
    /// The backbone scaled by the given depth and width factors, both in
    /// thousandths.
    pub open spec fn new(depth: nat, width: nat) -> Self {
        let base_channels = base_channels(width);
        let base_depth = base_depth(depth);
        CspDarknetSpec {
            stem: FocusSpec::new(3, base_channels, 3, 1),
            dark2: CspBlockSpec::new(base_channels, base_channels * 2, base_depth, false),
            dark3: CspBlockSpec::new(base_channels * 2, base_channels * 4, base_depth * 3, false),
            dark4: CspBlockSpec::new(base_channels * 4, base_channels * 8, base_depth * 3, false),
            dark5: CspBlockSpec::new(base_channels * 8, base_channels * 16, base_depth, true),
        }
    }

    /// Each block is well formed and reads as many channels as the block
    /// before it writes; only the last block pools.
    pub open spec fn wf(self) -> bool {
        &&& self.stem.wf()
        &&& self.dark2.wf()
        &&& self.dark3.wf()
        &&& self.dark4.wf()
        &&& self.dark5.wf()
        &&& self.dark2.in_channels() == self.stem.out_channels()
        &&& self.dark3.in_channels() == self.dark2.out_channels()
        &&& self.dark4.in_channels() == self.dark3.out_channels()
        &&& self.dark5.in_channels() == self.dark4.out_channels()
        &&& self.dark2.spp is None
        &&& self.dark3.spp is None
        &&& self.dark4.spp is None
        &&& self.dark5.spp is Some
    }

    /// The backbone is well formed whatever the factors are.
    pub proof fn lemma_new_wf(depth: nat, width: nat)
        ensures
            Self::new(depth, width).wf(),
    {
        let c = base_channels(width);
        let d = base_depth(depth);
        CspBlockSpec::lemma_new_wf(c, c * 2, d, false);
        CspBlockSpec::lemma_new_wf(c * 2, c * 4, d * 3, false);
        CspBlockSpec::lemma_new_wf(c * 4, c * 8, d * 3, false);
        CspBlockSpec::lemma_new_wf(c * 8, c * 16, d, true);
    }

    /// For every width factor of the family the scaling is exact: nothing is
    /// lost to rounding, and the stem writes between 16 and 80 channels.
    pub proof fn lemma_base_channels_exact(width: nat)
        requires
            valid_width(width),
        ensures
            1000 * base_channels(width) == 64 * width,
            16 <= base_channels(width) <= 80,
    {
    }

    /// For every depth factor of the family, the base depth is the whole
    /// number nearest to three times the factor, and it lies between one and
    /// four: one, two, three and four for the factors in rising order.
    pub proof fn lemma_base_depth_nearest(depth: nat)
        requires
            valid_depth(depth),
        ensures
            1 <= base_depth(depth) <= 4,
            1000 * base_depth(depth) - 500 <= 3 * depth < 1000 * base_depth(depth) + 500,
            depth == 330 ==> base_depth(depth) == 1,
            depth == 670 ==> base_depth(depth) == 2,
            depth == 1000 ==> base_depth(depth) == 3,
            depth == 1330 ==> base_depth(depth) == 4,
    {
    }

    /// The three feature maps that the backbone hands on are those of its last
    /// three blocks. They have 4, 8 and 16 times the channels of the stem, and
    /// the blocks that compute the first two are three times as deep as the
    /// other two.
    pub proof fn lemma_feature_channels(depth: nat, width: nat)
        ensures
            Self::new(depth, width).stem.in_channels() == 3,
            Self::new(depth, width).stem.out_channels() == base_channels(width),
            Self::new(depth, width).dark2.out_channels() == 2 * base_channels(width),
            Self::new(depth, width).dark3.out_channels() == 4 * base_channels(width),
            Self::new(depth, width).dark4.out_channels() == 8 * base_channels(width),
            Self::new(depth, width).dark5.out_channels() == 16 * base_channels(width),
            Self::new(depth, width).dark2.depth() == base_depth(depth),
            Self::new(depth, width).dark3.depth() == 3 * base_depth(depth),
            Self::new(depth, width).dark4.depth() == 3 * base_depth(depth),
            Self::new(depth, width).dark5.depth() == base_depth(depth),
    {
        let c = base_channels(width);
        let d = base_depth(depth);
        CspBlockSpec::lemma_new_wf(c, c * 2, d, false);
        CspBlockSpec::lemma_new_wf(c * 2, c * 4, d * 3, false);
        CspBlockSpec::lemma_new_wf(c * 4, c * 8, d * 3, false);
        CspBlockSpec::lemma_new_wf(c * 8, c * 16, d, true);
    }
}

/// CSPDarknet-53 configuration.
pub struct CspDarknetConfig {
    stem: FocusConfig,
    dark2: CspBlockConfig,
    dark3: CspBlockConfig,
    dark4: CspBlockConfig,
    dark5: CspBlockConfig,
}

impl View for CspDarknetConfig {
    type V = CspDarknetSpec;

    closed spec fn view(&self) -> CspDarknetSpec {
        CspDarknetSpec {
            stem: self.stem@,
            dark2: self.dark2@,
            dark3: self.dark3@,
            dark4: self.dark4@,
            dark5: self.dark5@,
        }
    }
}

impl CspDarknetConfig {
    /// Create a new instance of the CSPDarknet-53 configuration.
    ///
    /// The depth must be one of 0.33, 0.67, 1.0 and 1.33, and the width one of
    /// 0.25, 0.375, 0.5, 0.75, 1.0 and 1.25.
    pub fn new(depth: Factor, width: Factor) -> (res: Self)
        requires
            valid_depth(depth@),
            valid_width(width@),
        ensures
            res@ == CspDarknetSpec::new(depth@, width@),
            res@.wf(),
    {
        let base_channels: usize = expand(64, width);
        let rounded: usize = (3 * depth.thousandths() + 500) / 1000;
        let base_depth: usize = if rounded >= 1 {
            rounded
        } else {
            1
        };

        let stem = FocusConfig::new(3, base_channels, 3, 1);
        let dark2 = CspBlockConfig::new(base_channels, base_channels * 2, base_depth, false);
        let dark3 = CspBlockConfig::new(
            base_channels * 2,
            base_channels * 4,
            base_depth * 3,
            false,
        );
        let dark4 = CspBlockConfig::new(
            base_channels * 4,
            base_channels * 8,
            base_depth * 3,
            false,
        );
        let dark5 = CspBlockConfig::new(base_channels * 8, base_channels * 16, base_depth, true);

        proof {
            CspDarknetSpec::lemma_new_wf(depth@, width@);
        }
        CspDarknetConfig { stem, dark2, dark3, dark4, dark5 }
    }

    /// The focus block that reads the images.
    pub fn stem(&self) -> (res: &FocusConfig)
        ensures
            res@ == self@.stem,
    {
        &self.stem
    }

    /// The first CSP block.
    pub fn dark2(&self) -> (res: &CspBlockConfig)
        ensures
            res@ == self@.dark2,
    {
        &self.dark2
    }

    /// The second CSP block, which computes the first feature map.
    pub fn dark3(&self) -> (res: &CspBlockConfig)
        ensures
            res@ == self@.dark3,
    {
        &self.dark3
    }

    /// The third CSP block, which computes the second feature map.
    pub fn dark4(&self) -> (res: &CspBlockConfig)
        ensures
            res@ == self@.dark4,
    {
        &self.dark4
    }

    /// The last CSP block, which computes the third feature map.
    pub fn dark5(&self) -> (res: &CspBlockConfig)
        ensures
            res@ == self@.dark5,
    {
        &self.dark5
    }
}

} // verus!
