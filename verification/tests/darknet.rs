use yolox_burn::model::blocks::{BaseConvConfig, Factor};
use yolox_burn::model::darknet::{CspBlockConfig, CspDarknetConfig};

const DEPTHS: [usize; 4] = [330, 670, 1000, 1330];
const WIDTHS: [usize; 6] = [250, 375, 500, 750, 1000, 1250];

fn settings(conv: &BaseConvConfig) -> [usize; 6] {
    [
        conv.in_channels(),
        conv.out_channels(),
        conv.kernel_size(),
        conv.stride(),
        conv.padding(),
        conv.groups(),
    ]
}

fn darknet(depth: usize, width: usize) -> CspDarknetConfig {
    CspDarknetConfig::new(Factor::from_thousandths(depth), Factor::from_thousandths(width))
}

/// The channels a block reads and writes, its number of inner bottlenecks,
/// and whether it pools.
fn outline(block: &CspBlockConfig) -> (usize, usize, usize, bool) {
    (
        block.conv().in_channels(),
        block.c3().conv3().out_channels(),
        block.c3().blocks().len(),
        block.spp().is_some(),
    )
}

#[test]
fn csp_block_without_spp() {
    let block = CspBlockConfig::new(32, 64, 3, false);
    assert_eq!(settings(block.conv()), [32, 64, 3, 2, 1, 1]);
    assert!(block.spp().is_none());
    let c3 = block.c3();
    assert_eq!(settings(c3.conv1()), [64, 32, 1, 1, 0, 1]);
    assert_eq!(settings(c3.conv2()), [64, 32, 1, 1, 0, 1]);
    assert_eq!(settings(c3.conv3()), [64, 64, 1, 1, 0, 1]);
    assert_eq!(c3.blocks().len(), 3);
    for inner in c3.blocks() {
        assert_eq!(settings(inner.conv1()), [32, 32, 1, 1, 0, 1]);
        assert_eq!(settings(inner.conv2()), [32, 32, 3, 1, 1, 1]);
        assert!(inner.shortcut());
    }
}

#[test]
fn csp_block_with_spp() {
    let block = CspBlockConfig::new(256, 512, 1, true);
    assert_eq!(settings(block.conv()), [256, 512, 3, 2, 1, 1]);
    let spp = block.spp().expect("the block pools");
    assert_eq!(settings(spp.conv1()), [512, 256, 1, 1, 0, 1]);
    assert_eq!(settings(spp.conv2()), [1024, 512, 1, 1, 0, 1]);
    assert_eq!(spp.pooling().len(), 3);
    let c3 = block.c3();
    assert_eq!(settings(c3.conv1()), [512, 256, 1, 1, 0, 1]);
    assert_eq!(settings(c3.conv3()), [512, 512, 1, 1, 0, 1]);
    assert_eq!(c3.blocks().len(), 1);
    assert!(!c3.blocks()[0].shortcut());
}

#[test]
fn csp_block_shortcut_is_the_opposite_of_spp() {
    let plain = CspBlockConfig::new(8, 16, 2, false);
    assert!(plain.c3().blocks().iter().all(|inner| inner.shortcut()));
    let pooled = CspBlockConfig::new(8, 16, 2, true);
    assert!(pooled.c3().blocks().iter().all(|inner| !inner.shortcut()));
}

#[test]
fn csp_block_without_depth() {
    let block = CspBlockConfig::new(8, 16, 0, true);
    assert!(block.c3().blocks().is_empty());
    assert!(block.spp().is_some());
}

#[test]
fn csp_block_at_the_limit() {
    let block = CspBlockConfig::new(usize::MAX, usize::MAX, 0, false);
    assert_eq!(settings(block.conv()), [usize::MAX, usize::MAX, 3, 2, 1, 1]);
    assert_eq!(block.c3().conv1().out_channels(), usize::MAX / 2);
    assert_eq!(block.c3().conv3().in_channels(), usize::MAX - 1);
    let widest = usize::MAX / 4 * 2 + 1;
    let block = CspBlockConfig::new(1, widest, 0, true);
    let spp = block.spp().expect("the block pools");
    assert_eq!(spp.conv2().in_channels(), usize::MAX / 4 * 4);
}

#[test]
fn csp_block_parts_fit_together() {
    for (out_channels, spp) in [(64usize, false), (64, true), (7, false), (7, true), (1, true)] {
        let block = CspBlockConfig::new(5, out_channels, 2, spp);
        let c3 = block.c3();
        match block.spp() {
            Some(pool) => {
                assert_eq!(pool.conv1().in_channels(), block.conv().out_channels());
                assert_eq!(c3.conv1().in_channels(), pool.conv2().out_channels());
                assert_eq!(c3.conv2().in_channels(), pool.conv2().out_channels());
            }
            None => {
                assert_eq!(c3.conv1().in_channels(), block.conv().out_channels());
                assert_eq!(c3.conv2().in_channels(), block.conv().out_channels());
            }
        }
        assert_eq!(c3.conv3().out_channels(), out_channels);
    }
}

#[test]
fn darknet_nano() {
    let config = darknet(330, 250);
    assert_eq!(settings(config.stem().conv()), [12, 16, 3, 1, 1, 1]);
    assert_eq!(outline(config.dark2()), (16, 32, 1, false));
    assert_eq!(outline(config.dark3()), (32, 64, 3, false));
    assert_eq!(outline(config.dark4()), (64, 128, 3, false));
    assert_eq!(outline(config.dark5()), (128, 256, 1, true));
}

#[test]
fn darknet_tiny() {
    let config = darknet(330, 375);
    assert_eq!(settings(config.stem().conv()), [12, 24, 3, 1, 1, 1]);
    assert_eq!(outline(config.dark2()), (24, 48, 1, false));
    assert_eq!(outline(config.dark3()), (48, 96, 3, false));
    assert_eq!(outline(config.dark4()), (96, 192, 3, false));
    assert_eq!(outline(config.dark5()), (192, 384, 1, true));
}

#[test]
fn darknet_small() {
    let config = darknet(330, 500);
    assert_eq!(settings(config.stem().conv()), [12, 32, 3, 1, 1, 1]);
    assert_eq!(outline(config.dark2()), (32, 64, 1, false));
    assert_eq!(outline(config.dark3()), (64, 128, 3, false));
    assert_eq!(outline(config.dark4()), (128, 256, 3, false));
    assert_eq!(outline(config.dark5()), (256, 512, 1, true));
}

#[test]
fn darknet_medium() {
    let config = darknet(670, 750);
    assert_eq!(settings(config.stem().conv()), [12, 48, 3, 1, 1, 1]);
    assert_eq!(outline(config.dark2()), (48, 96, 2, false));
    assert_eq!(outline(config.dark3()), (96, 192, 6, false));
    assert_eq!(outline(config.dark4()), (192, 384, 6, false));
    assert_eq!(outline(config.dark5()), (384, 768, 2, true));
}

#[test]
fn darknet_large() {
    let config = darknet(1000, 1000);
    assert_eq!(settings(config.stem().conv()), [12, 64, 3, 1, 1, 1]);
    assert_eq!(outline(config.dark2()), (64, 128, 3, false));
    assert_eq!(outline(config.dark3()), (128, 256, 9, false));
    assert_eq!(outline(config.dark4()), (256, 512, 9, false));
    assert_eq!(outline(config.dark5()), (512, 1024, 3, true));
}

#[test]
fn darknet_extra_large() {
    let config = darknet(1330, 1250);
    assert_eq!(settings(config.stem().conv()), [12, 80, 3, 1, 1, 1]);
    assert_eq!(outline(config.dark2()), (80, 160, 4, false));
    assert_eq!(outline(config.dark3()), (160, 320, 12, false));
    assert_eq!(outline(config.dark4()), (320, 640, 12, false));
    assert_eq!(outline(config.dark5()), (640, 1280, 4, true));
}

#[test]
fn darknet_blocks_in_full() {
    let config = darknet(330, 500);
    let dark3 = config.dark3();
    assert_eq!(settings(dark3.conv()), [64, 128, 3, 2, 1, 1]);
    assert_eq!(settings(dark3.c3().conv1()), [128, 64, 1, 1, 0, 1]);
    assert_eq!(settings(dark3.c3().conv2()), [128, 64, 1, 1, 0, 1]);
    assert_eq!(settings(dark3.c3().conv3()), [128, 128, 1, 1, 0, 1]);
    for inner in dark3.c3().blocks() {
        assert_eq!(settings(inner.conv1()), [64, 64, 1, 1, 0, 1]);
        assert_eq!(settings(inner.conv2()), [64, 64, 3, 1, 1, 1]);
        assert!(inner.shortcut());
    }
    let dark5 = config.dark5();
    let spp = dark5.spp().expect("the last block pools");
    assert_eq!(settings(spp.conv1()), [512, 256, 1, 1, 0, 1]);
    assert_eq!(settings(spp.conv2()), [1024, 512, 1, 1, 0, 1]);
    let windows: Vec<usize> = spp.pooling().iter().map(|pool| pool.kernel_size()).collect();
    assert_eq!(windows, vec![5, 9, 13]);
    for inner in dark5.c3().blocks() {
        assert_eq!(settings(inner.conv1()), [256, 256, 1, 1, 0, 1]);
        assert!(!inner.shortcut());
    }
}

#[test]
fn darknet_depth_scales_the_blocks() {
    let expected = [1usize, 2, 3, 4];
    for (depth, base_depth) in DEPTHS.iter().zip(expected) {
        for width in WIDTHS {
            let config = darknet(*depth, width);
            assert_eq!(config.dark2().c3().blocks().len(), base_depth);
            assert_eq!(config.dark3().c3().blocks().len(), 3 * base_depth);
            assert_eq!(config.dark4().c3().blocks().len(), 3 * base_depth);
            assert_eq!(config.dark5().c3().blocks().len(), base_depth);
        }
    }
}

#[test]
fn darknet_width_scales_the_channels() {
    let expected = [16usize, 24, 32, 48, 64, 80];
    for (width, base_channels) in WIDTHS.iter().zip(expected) {
        for depth in DEPTHS {
            let config = darknet(depth, *width);
            assert_eq!(config.stem().conv().in_channels(), 4 * 3);
            assert_eq!(config.stem().conv().out_channels(), base_channels);
            assert_eq!(config.dark2().c3().conv3().out_channels(), 2 * base_channels);
            assert_eq!(config.dark3().c3().conv3().out_channels(), 4 * base_channels);
            assert_eq!(config.dark4().c3().conv3().out_channels(), 8 * base_channels);
            assert_eq!(config.dark5().c3().conv3().out_channels(), 16 * base_channels);
        }
    }
}

#[test]
fn darknet_blocks_read_what_the_block_before_writes() {
    for depth in DEPTHS {
        for width in WIDTHS {
            let config = darknet(depth, width);
            let blocks = [config.dark2(), config.dark3(), config.dark4(), config.dark5()];
            let mut channels = config.stem().conv().out_channels();
            for block in blocks {
                assert_eq!(block.conv().in_channels(), channels);
                assert_eq!(block.conv().stride(), 2);
                channels = block.c3().conv3().out_channels();
                assert_eq!(channels, 2 * block.conv().in_channels());
            }
        }
    }
}

#[test]
fn darknet_only_the_last_block_pools() {
    for depth in DEPTHS {
        for width in WIDTHS {
            let config = darknet(depth, width);
            assert!(config.dark2().spp().is_none());
            assert!(config.dark3().spp().is_none());
            assert!(config.dark4().spp().is_none());
            assert!(config.dark5().spp().is_some());
        }
    }
}
