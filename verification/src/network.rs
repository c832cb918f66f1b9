//! Fixed topology of the convolutional network, and the shape bookkeeping
//! of its forward pass.
//!
//! The floating-point arithmetic of the forward pass is done by the
//! numeric runtime in the surrounding server; what is verified here is
//! everything the runtime is handed and held to: the layer dimensions,
//! how the spatial shape moves through the three convolution blocks, the
//! flattened feature length the fully-connected stage consumes, and the
//! exact matching of a checkpoint's parameter shapes against the
//! topology.

use vstd::prelude::*;

use crate::config::{ModelConfig, MICROS_PER_UNIT};
use crate::error::ServiceError;

verus! {

/// Spatial side of the fixed output of the adaptive average pooling: the
/// three blocks are followed by pooling to 4x4 whatever the spatial size
/// before it, which decouples the fully-connected widths from the
/// configured input resolution.
pub const ADAPTIVE_POOL_SIDE: usize = 4;

/// Shape of one feature map: channels x height x width.
#[derive(Clone, Copy, Debug, PartialEq, Eq, Structural)]
pub struct FeatureShape {
    /// Number of channels.
    pub channels: usize,
    /// Spatial height.
    pub height: usize,
    /// Spatial width.
    pub width: usize,
}

/// The fixed topology: three blocks of 3x3 same-padded convolution,
/// batch normalization, rectified-linear activation and 2x2 max pooling
/// of stride 2, then adaptive average pooling to 4x4, then three
/// fully-connected layers with dropout between them.
///
/// `inference_mode` is fixed at construction: when it is set, dropout is
/// inert (an identity pass-through), as serving requires.
#[derive(Clone, Copy, Debug, PartialEq, Eq, Structural)]
pub struct NetworkArchitecture {
    /// Channels of the input tensor (3 for RGB).
    pub image_channels: usize,
    /// Filters of the first convolution block.
    pub conv1_filters: usize,
    /// Filters of the second convolution block.
    pub conv2_filters: usize,
    /// Filters of the third convolution block.
    pub conv3_filters: usize,
    /// Units of the first fully-connected layer.
    pub fc1_units: usize,
    /// Units of the second fully-connected layer.
    pub fc2_units: usize,
    /// Output classes; the logits have this length.
    pub num_classes: usize,
    /// Dropout rate in millionths, as configured for training.
    pub dropout_rate_micros: u32,
    /// Whether the network is built for serving: dropout is then inert.
    pub inference_mode: bool,
}

impl NetworkArchitecture {
    /// A buildable topology: no layer is empty and the flattened feature
    /// vector is addressable.
    pub open spec fn wf(&self) -> bool {
        &&& 1 <= self.image_channels
        &&& 1 <= self.conv1_filters
        &&& 1 <= self.conv2_filters
        &&& 1 <= self.conv3_filters
        &&& 1 <= self.fc1_units
        &&& 1 <= self.fc2_units
        &&& 1 <= self.num_classes
        &&& 16 * self.conv3_filters <= usize::MAX
        &&& self.dropout_rate_micros <= MICROS_PER_UNIT
    }

    /// Fixes the topology. The mode is part of the construction, never a
    /// runtime toggle: a network built with `inference_mode` serves with
    /// dropout inert.
    pub fn new(
        image_channels: usize,
        conv1_filters: usize,
        conv2_filters: usize,
        conv3_filters: usize,
        fc1_units: usize,
        fc2_units: usize,
        num_classes: usize,
        dropout_rate_micros: u32,
        inference_mode: bool,
    ) -> (r: NetworkArchitecture)
        ensures
            r == (NetworkArchitecture {
                image_channels,
                conv1_filters,
                conv2_filters,
                conv3_filters,
                fc1_units,
                fc2_units,
                num_classes,
                dropout_rate_micros,
                inference_mode,
            }),
    {
        NetworkArchitecture {
            image_channels,
            conv1_filters,
            conv2_filters,
            conv3_filters,
            fc1_units,
            fc2_units,
            num_classes,
            dropout_rate_micros,
            inference_mode,
        }
    }

    /// Derives the serving topology from the full model configuration.
    pub fn from_model(cfg: &ModelConfig, inference_mode: bool) -> (r: NetworkArchitecture)
        ensures
            r.image_channels == cfg.image_channels,
            r.conv1_filters == cfg.conv1_filters,
            r.conv2_filters == cfg.conv2_filters,
            r.conv3_filters == cfg.conv3_filters,
            r.fc1_units == cfg.fc1_units,
            r.fc2_units == cfg.fc2_units,
            r.num_classes == cfg.num_classes,
            r.dropout_rate_micros == cfg.dropout_rate_micros,
            r.inference_mode == inference_mode,
            cfg.wf() ==> r.wf(),
    {
        NetworkArchitecture {
            image_channels: cfg.image_channels,
            conv1_filters: cfg.conv1_filters,
            conv2_filters: cfg.conv2_filters,
            conv3_filters: cfg.conv3_filters,
            fc1_units: cfg.fc1_units,
            fc2_units: cfg.fc2_units,
            num_classes: cfg.num_classes,
            dropout_rate_micros: cfg.dropout_rate_micros,
            inference_mode,
        }
    }

    /// Runtime test of the buildability invariant, for callers outside
    /// the verified library.
    pub fn check_wf(&self) -> (r: bool)
        ensures
            r == self.wf(),
    {
        1 <= self.image_channels && 1 <= self.conv1_filters && 1 <= self.conv2_filters && 1
            <= self.conv3_filters && 1 <= self.fc1_units && 1 <= self.fc2_units && 1
            <= self.num_classes && self.conv3_filters <= usize::MAX / 16
            && self.dropout_rate_micros <= MICROS_PER_UNIT
    }

    /// The dropout rate the layers are actually built with: zero when the
    /// network serves, the configured rate when it trains. Dropout being
    /// inert at inference is decided here, once, by construction.
    pub fn effective_dropout_micros(&self) -> (r: u32)
        ensures
            self.inference_mode ==> r == 0,
            !self.inference_mode ==> r == self.dropout_rate_micros,
    {
        if self.inference_mode {
            0
        } else {
            self.dropout_rate_micros
        }
    }

    /// Shape after one block applied to `input` with `filters` output
    /// channels: the same-padded 3x3 convolution keeps the spatial size
    /// and sets the channel count, batch normalization and the activation
    /// keep the shape, and the 2x2 max pooling of stride 2 halves each
    /// spatial dimension, rounding down.
    pub open spec fn spec_block_out(filters: usize, input: FeatureShape) -> FeatureShape {
        FeatureShape { channels: filters, height: (input.height / 2) as usize, width: (input.width
            / 2) as usize }
    }

    /// Shape after the adaptive average pooling: the channel count is
    /// kept and the spatial size becomes 4x4 whatever it was.
    pub open spec fn spec_adaptive_out(input: FeatureShape) -> FeatureShape {
        FeatureShape { channels: input.channels, height: ADAPTIVE_POOL_SIDE, width:
            ADAPTIVE_POOL_SIDE }
    }

    /// Shape after the third block, for a given input shape.
    pub open spec fn spec_blocks_out(&self, input: FeatureShape) -> FeatureShape {
        Self::spec_block_out(
            self.conv3_filters,
            Self::spec_block_out(self.conv2_filters, Self::spec_block_out(self.conv1_filters, input)),
        )
    }

    /// Length of the flattened feature vector the fully-connected stage
    /// consumes: third block's filters times the fixed 4x4 spatial size.
    pub open spec fn spec_flattened_len(&self) -> int {
        16 * self.conv3_filters
    }

    /// Length of the flattened feature vector; the first fully-connected
    /// layer takes exactly this many inputs.
    pub fn flattened_len(&self) -> (r: usize)
        requires
            self.wf(),
        ensures
            r == self.spec_flattened_len(),
    {
        16 * self.conv3_filters
    }

    /// The feature shapes the forward pass walks through, one entry per
    /// stage: the three convolution blocks, then the adaptive pooling.
    /// Fails exactly when the input's channel count is not the network's.
    pub fn stage_shapes(&self, input: FeatureShape) -> (r: Result<Vec<FeatureShape>, ServiceError>)
        ensures
            r is Ok <==> input.channels == self.image_channels,
            r matches Ok(v) ==> v@ == seq![
                Self::spec_block_out(self.conv1_filters, input),
                Self::spec_block_out(
                    self.conv2_filters,
                    Self::spec_block_out(self.conv1_filters, input),
                ),
                self.spec_blocks_out(input),
                Self::spec_adaptive_out(self.spec_blocks_out(input)),
            ],
    {
        if input.channels != self.image_channels {
            return Err(
                ServiceError::Inference(
                    String::from_str("Input channel count does not match the network"),
                ),
            );
        }
        let b1 = FeatureShape {
            channels: self.conv1_filters,
            height: input.height / 2,
            width: input.width / 2,
        };
        let b2 = FeatureShape { channels: self.conv2_filters, height: b1.height / 2, width:
            b1.width / 2 };
        let b3 = FeatureShape { channels: self.conv3_filters, height: b2.height / 2, width:
            b2.width / 2 };
        let pooled = FeatureShape {
            channels: b3.channels,
            height: ADAPTIVE_POOL_SIDE,
            width: ADAPTIVE_POOL_SIDE,
        };
        let mut shapes: Vec<FeatureShape> = Vec::new();
        shapes.push(b1);
        shapes.push(b2);
        shapes.push(b3);
        shapes.push(pooled);
        assert(shapes@ =~= seq![b1, b2, b3, pooled]);
        Ok(shapes)
    }

    /// Length of the logits vector the forward pass returns for a
    /// well-shaped input: always the class count.
    pub fn logits_len(&self) -> (r: usize)
        ensures
            r == self.num_classes,
    {
        self.num_classes
    }

    /// The flattened feature length does not depend on the input shape:
    /// the adaptive pooling fixes the spatial size at 4x4, so a drift in
    /// the configured input resolution cannot change the width of the
    /// fully-connected stage.
    pub proof fn lemma_flattened_len_independent_of_input(
        &self,
        input1: FeatureShape,
        input2: FeatureShape,
    )
        ensures
            Self::spec_adaptive_out(self.spec_blocks_out(input1)).channels
                == Self::spec_adaptive_out(self.spec_blocks_out(input2)).channels,
            Self::spec_adaptive_out(self.spec_blocks_out(input1)).height == ADAPTIVE_POOL_SIDE,
            Self::spec_adaptive_out(self.spec_blocks_out(input1)).width == ADAPTIVE_POOL_SIDE,
            self.spec_flattened_len() == Self::spec_adaptive_out(
                self.spec_blocks_out(input1),
            ).channels * (ADAPTIVE_POOL_SIDE * ADAPTIVE_POOL_SIDE),
    {
        assert(ADAPTIVE_POOL_SIDE * ADAPTIVE_POOL_SIDE == 16);
        vstd::arithmetic::mul::lemma_mul_is_commutative(self.conv3_filters as int, 16);
    }
}

/// Shape of one convolution kernel: out-channels x in-channels x
/// kernel-height x kernel-width.
#[derive(Clone, Copy, Debug, PartialEq, Eq, Structural)]
pub struct ConvKernelShape {
    /// Output channels (filters).
    pub out_channels: usize,
    /// Input channels.
    pub in_channels: usize,
    /// Kernel height.
    pub kernel_height: usize,
    /// Kernel width.
    pub kernel_width: usize,
}

/// Shape of one fully-connected layer's weight matrix.
#[derive(Clone, Copy, Debug, PartialEq, Eq, Structural)]
pub struct LinearShape {
    /// Input features.
    pub in_features: usize,
    /// Output features.
    pub out_features: usize,
}

/// The parameter shapes found in a persisted checkpoint: the three
/// convolution kernels, the feature counts of the three batch
/// normalizations, and the three fully-connected weight matrices.
#[derive(Clone, Copy, Debug, PartialEq, Eq, Structural)]
pub struct WeightShapes {
    /// Kernel of the first convolution.
    pub conv1: ConvKernelShape,
    /// Features of the first batch normalization.
    pub bn1_features: usize,
    /// Kernel of the second convolution.
    pub conv2: ConvKernelShape,
    /// Features of the second batch normalization.
    pub bn2_features: usize,
    /// Kernel of the third convolution.
    pub conv3: ConvKernelShape,
    /// Features of the third batch normalization.
    pub bn3_features: usize,
    /// Weight matrix of the first fully-connected layer.
    pub fc1: LinearShape,
    /// Weight matrix of the second fully-connected layer.
    pub fc2: LinearShape,
    /// Weight matrix of the third fully-connected layer.
    pub fc3: LinearShape,
}

impl WeightShapes {
    /// The exact binding of a checkpoint to the topology: every kernel is
    /// 3x3 and wired filter count to filter count, every batch
    /// normalization matches its block's filters, and the fully-connected
    /// chain runs from the flattened features to the class count.
    pub open spec fn matches_architecture(&self, arch: &NetworkArchitecture) -> bool {
        &&& self.conv1 == (ConvKernelShape {
            out_channels: arch.conv1_filters,
            in_channels: arch.image_channels,
            kernel_height: 3,
            kernel_width: 3,
        })
        &&& self.bn1_features == arch.conv1_filters
        &&& self.conv2 == (ConvKernelShape {
            out_channels: arch.conv2_filters,
            in_channels: arch.conv1_filters,
            kernel_height: 3,
            kernel_width: 3,
        })
        &&& self.bn2_features == arch.conv2_filters
        &&& self.conv3 == (ConvKernelShape {
            out_channels: arch.conv3_filters,
            in_channels: arch.conv2_filters,
            kernel_height: 3,
            kernel_width: 3,
        })
        &&& self.bn3_features == arch.conv3_filters
        &&& self.fc1 == (LinearShape {
            in_features: arch.spec_flattened_len() as usize,
            out_features: arch.fc1_units,
        })
        &&& self.fc2 == (LinearShape { in_features: arch.fc1_units, out_features: arch.fc2_units })
        &&& self.fc3 == (LinearShape {
            in_features: arch.fc2_units,
            out_features: arch.num_classes,
        })
    }
}

/// Binds a checkpoint's parameter shapes to the topology, failing on any
/// mismatch: the result is `Ok` exactly when every shape matches the
/// architecture.
pub fn validate_weights(arch: &NetworkArchitecture, shapes: &WeightShapes) -> (r: Result<
    (),
    ServiceError,
>)
    requires
        arch.wf(),
    ensures
        r is Ok <==> shapes.matches_architecture(arch),
        r matches Err(e) ==> e matches ServiceError::ModelLoad(_),
{
    let flattened = arch.flattened_len();
    let ok = shapes.conv1.out_channels == arch.conv1_filters && shapes.conv1.in_channels
        == arch.image_channels && shapes.conv1.kernel_height == 3 && shapes.conv1.kernel_width == 3
        && shapes.bn1_features == arch.conv1_filters && shapes.conv2.out_channels
        == arch.conv2_filters && shapes.conv2.in_channels == arch.conv1_filters
        && shapes.conv2.kernel_height == 3 && shapes.conv2.kernel_width == 3 && shapes.bn2_features
        == arch.conv2_filters && shapes.conv3.out_channels == arch.conv3_filters
        && shapes.conv3.in_channels == arch.conv2_filters && shapes.conv3.kernel_height == 3
        && shapes.conv3.kernel_width == 3 && shapes.bn3_features == arch.conv3_filters
        && shapes.fc1.in_features == flattened && shapes.fc1.out_features == arch.fc1_units
        && shapes.fc2.in_features == arch.fc1_units && shapes.fc2.out_features == arch.fc2_units
        && shapes.fc3.in_features == arch.fc2_units && shapes.fc3.out_features == arch.num_classes;
    if ok {
        Ok(())
    } else {
        Err(
            ServiceError::ModelLoad(
                String::from_str("Checkpoint parameter shapes do not match the architecture"),
            ),
        )
    }
}

} // verus!
