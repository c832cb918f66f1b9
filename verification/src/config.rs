//! Process-wide configuration of the model and of the inference service.

use vstd::prelude::*;

verus! {

/// One million: rates and probabilities are held in millionths so that
/// they stay in integer arithmetic. A rate of 300_000 millionths is 0.3.
pub const MICROS_PER_UNIT: u32 = 1_000_000;

/// Full configuration of the malaria-detection network, covering both the
/// topology that inference needs and the knobs that only training reads.
///
/// The fields that the training stack expresses as fractions
/// (`dropout_rate_micros`, `learning_rate_micros`) are held in millionths.
#[derive(Clone, Debug)]
pub struct ModelConfig {
    /// Input image width.
    pub image_width: usize,
    /// Input image height.
    pub image_height: usize,
    /// Number of channels (3 for RGB, 1 for grayscale).
    pub image_channels: usize,
    /// Number of filters for the first convolutional layer.
    pub conv1_filters: usize,
    /// Number of filters for the second convolutional layer.
    pub conv2_filters: usize,
    /// Number of filters for the third convolutional layer.
    pub conv3_filters: usize,
    /// Units for the first fully-connected layer.
    pub fc1_units: usize,
    /// Units for the second fully-connected layer.
    pub fc2_units: usize,
    /// Number of output classes (2: parasitized / uninfected).
    pub num_classes: usize,
    /// Dropout rate for regularization, in millionths.
    pub dropout_rate_micros: u32,
    /// Learning rate for the optimizer, in millionths.
    pub learning_rate_micros: u32,
    /// Training batch size.
    pub batch_size: usize,
    /// Number of training epochs.
    pub num_epochs: usize,
    /// Path to the training dataset.
    pub train_data_path: String,
    /// Path to the validation dataset.
    pub val_data_path: String,
    /// Whether to use data caching.
    pub use_cache: bool,
    /// Number of workers for data loading.
    pub num_workers: usize,
    /// Gradient accumulation steps.
    pub grad_accum_steps: usize,
}

impl ModelConfig {
    /// A configuration the inference pipeline can work with: no dimension
    /// or layer count is zero, the pixel tensor and the flattened feature
    /// vector fit in memory, and the rates are genuine fractions.
    pub open spec fn wf(&self) -> bool {
        &&& 1 <= self.image_width
        &&& 1 <= self.image_height
        &&& 1 <= self.image_channels
        &&& 1 <= self.conv1_filters
        &&& 1 <= self.conv2_filters
        &&& 1 <= self.conv3_filters
        &&& 1 <= self.fc1_units
        &&& 1 <= self.fc2_units
        &&& 1 <= self.num_classes
        &&& 3 * (self.image_height * self.image_width) <= usize::MAX
        &&& 16 * self.conv3_filters <= usize::MAX
        &&& self.dropout_rate_micros <= MICROS_PER_UNIT
        &&& self.learning_rate_micros <= MICROS_PER_UNIT
    }
}

impl Default for ModelConfig {
    /// The configuration the shipped checkpoint was trained with:
    /// 128x128 RGB inputs, three convolution blocks of 16/32/64 filters,
    /// fully-connected widths 128 and 64, two classes, dropout 0.3.
    fn default() -> (r: ModelConfig)
        ensures
            r.image_width == 128,
            r.image_height == 128,
            r.image_channels == 3,
            r.conv1_filters == 16,
            r.conv2_filters == 32,
            r.conv3_filters == 64,
            r.fc1_units == 128,
            r.fc2_units == 64,
            r.num_classes == 2,
            r.dropout_rate_micros == 300_000,
            r.learning_rate_micros == 1_000,
            r.batch_size == 4,
            r.num_epochs == 15,
            r.train_data_path@ == "data/train"@,
            r.val_data_path@ == "data/val"@,
            r.use_cache == true,
            r.num_workers == 2,
            r.grad_accum_steps == 1,
            r.wf(),
    {
        ModelConfig {
            image_width: 128,
            image_height: 128,
            image_channels: 3,
            conv1_filters: 16,
            conv2_filters: 32,
            conv3_filters: 64,
            fc1_units: 128,
            fc2_units: 64,
            num_classes: 2,
            dropout_rate_micros: 300_000,
            learning_rate_micros: 1_000,
            batch_size: 4,
            num_epochs: 15,
            train_data_path: String::from_str("data/train"),
            val_data_path: String::from_str("data/val"),
            use_cache: true,
            num_workers: 2,
            grad_accum_steps: 1,
        }
    }
}

/// Immutable settings of the inference service, fixed at startup and
/// shared read-only for the whole life of the process.
#[derive(Clone, Copy, Debug, PartialEq, Eq, Structural)]
pub struct InferenceConfig {
    /// Height every uploaded image is resized to.
    pub image_height: usize,
    /// Width every uploaded image is resized to.
    pub image_width: usize,
    /// Channels of the canonical tensor layout; always 3 (RGB).
    pub image_channels: usize,
    /// Classes the network distinguishes; always 2.
    pub num_classes: usize,
}

impl InferenceConfig {
    /// A usable service configuration: RGB inputs, two classes, nonzero
    /// target dimensions within the decoder's 32-bit limit, and a pixel
    /// tensor that fits in memory.
    pub open spec fn wf(&self) -> bool {
        &&& self.image_channels == 3
        &&& self.num_classes == 2
        &&& Self::dims_valid(self.image_height, self.image_width)
    }

    /// Spec-level acceptance of target dimensions.
    pub open spec fn dims_valid(height: usize, width: usize) -> bool {
        &&& 1 <= height <= u32::MAX
        &&& 1 <= width <= u32::MAX
        &&& 3 * (height * width) <= usize::MAX
    }

    /// Builds the service configuration for the given target dimensions,
    /// rejecting dimensions that are zero or whose tensor cannot be
    /// addressed in memory.
    pub fn new(image_height: usize, image_width: usize) -> (r: Option<InferenceConfig>)
        ensures
            r is Some <==> Self::dims_valid(image_height, image_width),
            r matches Some(c) ==> c.wf() && c.image_height == image_height && c.image_width
                == image_width,
    {
        if image_height >= 1 && image_width >= 1 && image_height <= u32::MAX as usize
            && image_width <= u32::MAX as usize {
            match image_height.checked_mul(image_width) {
                Some(hw) => match hw.checked_mul(3) {
                    Some(_) => Some(
                        InferenceConfig {
                            image_height,
                            image_width,
                            image_channels: 3,
                            num_classes: 2,
                        },
                    ),
                    None => None,
                },
                None => None,
            }
        } else {
            None
        }
    }

    /// Derives the service configuration from a full model configuration,
    /// rejecting one whose channel or class counts the service cannot
    /// serve (the endpoint is fixed to RGB inputs and two classes).
    pub fn from_model(cfg: &ModelConfig) -> (r: Option<InferenceConfig>)
        ensures
            r is Some <==> (cfg.image_channels == 3 && cfg.num_classes == 2 && Self::dims_valid(
                cfg.image_height,
                cfg.image_width,
            )),
            r matches Some(c) ==> c.wf() && c.image_height == cfg.image_height && c.image_width
                == cfg.image_width,
    {
        if cfg.image_channels == 3 && cfg.num_classes == 2 {
            Self::new(cfg.image_height, cfg.image_width)
        } else {
            None
        }
    }
}

} // verus!
