//! Scaling factors and the elementary convolution blocks.

use vstd::prelude::*;

verus! {

/// A non-negative scaling factor, held exactly as a number of thousandths.
///
/// The factors that scale a network (0.25, 0.375, 0.33, ...) have at most three
/// decimals, so this representation loses nothing and keeps every computation
/// in integers.
#[derive(Clone, Copy, Debug, PartialEq, Eq, Structural)]
pub struct Factor {
    thousandths: usize,
}

impl View for Factor {
    type V = nat;

    /// The factor as its number of thousandths.
    closed spec fn view(&self) -> nat {
        self.thousandths as nat
    }
}

impl Factor {
    /// The factor `thousandths / 1000`.
    pub fn from_thousandths(thousandths: usize) -> (res: Self)
        ensures
            res@ == thousandths,
    {
        Factor { thousandths }
    }

    /// The number of thousandths in this factor.
    pub fn thousandths(&self) -> (res: usize)
        ensures
            res == self@,
    {
        self.thousandths
    }
}

/// `num_channels` scaled by `factor` thousandths, rounded down.
pub open spec fn spec_expand(num_channels: nat, factor: nat) -> nat {
    num_channels * factor / 1000
}

/// Compute the number of channels based on the provided factor.
///
/// The product is rounded down. A result that does not fit in `usize` is
/// replaced by `usize::MAX`.
pub fn expand(num_channels: usize, factor: Factor) -> (res: usize)
    ensures
        spec_expand(num_channels as nat, factor@) <= usize::MAX ==> res == spec_expand(
            num_channels as nat,
            factor@,
        ),
        spec_expand(num_channels as nat, factor@) > usize::MAX ==> res == usize::MAX,
{
    let wide: u128 = num_channels as u128;
    let thousandths: u128 = factor.thousandths as u128;
    assert(wide * thousandths <= u128::MAX) by (nonlinear_arith)
        requires
            wide <= u64::MAX,
            thousandths <= u64::MAX,
    ;
    let scaled: u128 = wide * thousandths / 1000;
    if scaled <= usize::MAX as u128 {
        scaled as usize
    } else {
        usize::MAX
    }
}

/// What a base convolution block is made of: a square 2D convolution without
/// bias, followed by batch normalisation over its output channels and an
/// activation.
pub struct BaseConvSpec {
    pub in_channels: nat,
    pub out_channels: nat,
    pub kernel_size: nat,
    pub stride: nat,
    pub padding: nat,
    pub groups: nat,
}

impl BaseConvSpec {
    /// The padding that centres a kernel of the given size on each position.
    pub open spec fn same_padding(kernel_size: nat) -> nat {
        ((kernel_size - 1) / 2) as nat
    }

    /// The block with the given channels, kernel, stride and groups, padded so
    /// that the kernel is centred.
    pub open spec fn new(
        in_channels: nat,
        out_channels: nat,
        kernel_size: nat,
        stride: nat,
        groups: nat,
    ) -> Self {
        BaseConvSpec {
            in_channels,
            out_channels,
            kernel_size,
            stride,
            padding: Self::same_padding(kernel_size),
            groups,
        }
    }

    /// The kernel is not empty and is centred by the padding.
    pub open spec fn wf(self) -> bool {
        &&& self.kernel_size >= 1
        &&& self.padding == Self::same_padding(self.kernel_size)
    }

    /// The kernel moves by one position at a time and the padding makes up
    /// for its size: the settings under which a convolution writes as many
    /// rows and columns as it reads.
    pub open spec fn keeps_size(self) -> bool {
        &&& self.stride == 1
        &&& self.kernel_size == 2 * self.padding + 1
    }
}

/// Base convolution block configuration.
pub struct BaseConvConfig {
    in_channels: usize,
    out_channels: usize,
    kernel_size: usize,
    stride: usize,
    padding: usize,
    groups: usize,
}

impl View for BaseConvConfig {
    type V = BaseConvSpec;

    closed spec fn view(&self) -> BaseConvSpec {
        BaseConvSpec {
            in_channels: self.in_channels as nat,
            out_channels: self.out_channels as nat,
            kernel_size: self.kernel_size as nat,
            stride: self.stride as nat,
            padding: self.padding as nat,
            groups: self.groups as nat,
        }
    }
}

impl BaseConvConfig {
    /// Create a new instance of the base convolution block configuration.
    ///
    /// The kernel must have at least one element per side.
    pub fn new(
        in_channels: usize,
        out_channels: usize,
        kernel_size: usize,
        stride: usize,
        groups: usize,
    ) -> (res: Self)
        requires
            kernel_size >= 1,
        ensures
            res@ == BaseConvSpec::new(
                in_channels as nat,
                out_channels as nat,
                kernel_size as nat,
                stride as nat,
                groups as nat,
            ),
            res@.wf(),
    {
        // Same padding
        let padding: usize = (kernel_size - 1) / 2;
        BaseConvConfig { in_channels, out_channels, kernel_size, stride, padding, groups }
    }

    /// The number of channels that the convolution reads.
    pub fn in_channels(&self) -> (res: usize)
        ensures
            res == self@.in_channels,
    {
        self.in_channels
    }

    /// The number of channels that the convolution writes, which is also the
    /// number of features that are normalised.
    pub fn out_channels(&self) -> (res: usize)
        ensures
            res == self@.out_channels,
    {
        self.out_channels
    }

    /// The height and width of the kernel.
    pub fn kernel_size(&self) -> (res: usize)
        ensures
            res == self@.kernel_size,
    {
        self.kernel_size
    }

    /// The step of the kernel, down and across.
    pub fn stride(&self) -> (res: usize)
        ensures
            res == self@.stride,
    {
        self.stride
    }

    /// The padding on each side of the input.
    pub fn padding(&self) -> (res: usize)
        ensures
            res == self@.padding,
    {
        self.padding
    }

    /// The number of groups that the channels are split into.
    pub fn groups(&self) -> (res: usize)
        ensures
            res == self@.groups,
    {
        self.groups
    }
}

/// What a focus block is made of: the four pixels of every 2x2 patch are
/// stacked along the channels, which a base convolution then reads.
pub struct FocusSpec {
    pub conv: BaseConvSpec,
}

impl FocusSpec {
    /// The number of pixels of a patch that end up in the channels.
    pub open spec fn patch() -> nat {
        4
    }

    /// The focus block for the given channels, kernel and stride.
    pub open spec fn new(
        in_channels: nat,
        out_channels: nat,
        kernel_size: nat,
        stride: nat,
    ) -> Self {
        FocusSpec {
            conv: BaseConvSpec::new(
                Self::patch() * in_channels,
                out_channels,
                kernel_size,
                stride,
                1,
            ),
        }
    }

    /// The number of channels of the images that the block reads.
    pub open spec fn in_channels(self) -> nat {
        self.conv.in_channels / Self::patch()
    }

    /// The number of channels that the block writes.
    pub open spec fn out_channels(self) -> nat {
        self.conv.out_channels
    }

    /// The convolution is well formed and reads whole patches.
    pub open spec fn wf(self) -> bool {
        &&& self.conv.wf()
        &&& self.conv.in_channels % Self::patch() == 0
        &&& self.conv.groups == 1
    }
}

/// Focus block configuration.
pub struct FocusConfig {
    conv: BaseConvConfig,
}

impl View for FocusConfig {
    type V = FocusSpec;

    closed spec fn view(&self) -> FocusSpec {
        FocusSpec { conv: self.conv@ }
    }
}

impl FocusConfig {
    /// Create a new instance of the focus block configuration.
    ///
    /// The kernel must have at least one element per side, and four times the
    /// input channels must fit in `usize`.
    pub fn new(
        in_channels: usize,
        out_channels: usize,
        kernel_size: usize,
        stride: usize,
    ) -> (res: Self)
        requires
            kernel_size >= 1,
            4 * in_channels <= usize::MAX,
        ensures
            res@ == FocusSpec::new(
                in_channels as nat,
                out_channels as nat,
                kernel_size as nat,
                stride as nat,
            ),
            res@.wf(),
            res@.in_channels() == in_channels,
    {
        let conv = BaseConvConfig::new(in_channels * 4, out_channels, kernel_size, stride, 1);
        FocusConfig { conv }
    }

    /// The convolution that reads the stacked patches.
    pub fn conv(&self) -> (res: &BaseConvConfig)
        ensures
            res@ == self@.conv,
    {
        &self.conv
    }
}

} // verus!
