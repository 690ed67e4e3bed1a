pub mod any;
pub mod discrete_uniform;
pub mod params;
pub mod quantile;
pub mod traits;

pub use any::{AnyContinuousParams, AnyDiscreteParams};
pub use discrete_uniform::{DiscreteUniform, DiscreteUniformParams};
pub use params::{
    ExponentialParams, GammaParams, LogNormalParams, NegativeBinomialParams, NormalParams,
    PoissonParams, UniformParams, WeibullParams,
};
pub use traits::DiscreteInt;
