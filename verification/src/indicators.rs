//! The indicators themselves: ring-buffer windowed statistics, exponential
//! smoothing, and the composites wired together from them.

pub mod average_true_range;
pub mod bollinger_bands;
pub mod efficiency_ratio;
pub mod exponential_moving_average;
pub mod keltner_channel;
pub mod moving_average_convergence_divergence;
pub mod on_balance_volume;
pub mod percentage_price_oscillator;
pub mod rate_of_change;
pub mod simple_moving_average;
pub mod standard_deviation;
pub mod true_range;

pub use self::average_true_range::AverageTrueRange;
pub use self::average_true_range::AverageTrueRangeView;
pub use self::bollinger_bands::BollingerBands;
pub use self::bollinger_bands::BollingerBandsOutput;
pub use self::bollinger_bands::BollingerBandsView;
pub use self::efficiency_ratio::EfficiencyRatio;
pub use self::efficiency_ratio::EfficiencyRatioView;
pub use self::exponential_moving_average::ExponentialMovingAverage;
pub use self::exponential_moving_average::ExponentialMovingAverageView;
pub use self::keltner_channel::KeltnerChannel;
pub use self::keltner_channel::KeltnerChannelOutput;
pub use self::keltner_channel::KeltnerChannelView;
pub use self::moving_average_convergence_divergence::MovingAverageConvergenceDivergence;
pub use self::moving_average_convergence_divergence::MovingAverageConvergenceDivergenceOutput;
pub use self::moving_average_convergence_divergence::MovingAverageConvergenceDivergenceView;
pub use self::on_balance_volume::OnBalanceVolume;
pub use self::on_balance_volume::OnBalanceVolumeView;
pub use self::percentage_price_oscillator::PercentagePriceOscillator;
pub use self::percentage_price_oscillator::PercentagePriceOscillatorOutput;
pub use self::percentage_price_oscillator::PercentagePriceOscillatorView;
pub use self::rate_of_change::RateOfChange;
pub use self::rate_of_change::RateOfChangeView;
pub use self::simple_moving_average::SimpleMovingAverage;
pub use self::simple_moving_average::SimpleMovingAverageView;
pub use self::standard_deviation::StandardDeviation;
pub use self::standard_deviation::StandardDeviationView;
pub use self::true_range::TrueRange;
pub use self::true_range::TrueRangeView;
