//! Decision core of an options market maker: position accounting with
//! inventory limits, Avellaneda-Stoikov quoting, delta hedging, a sticky risk
//! halt, and P&L attribution, all over exact fixed-point decimals.
pub mod book_quote;
pub mod contract;
pub mod decimal;
pub mod error;
pub mod generated;
pub mod greeks;
pub mod hedging;
pub mod limits;
pub mod manager;
pub mod market_data;
pub mod pnl;
pub mod position;
pub mod quote_params;
pub mod risk;
pub mod spread;

pub use book_quote::{Quote, QuoteUpdate};
pub use contract::{AdapterError, OptionType, OrderSide, OrderStatus, OrderType};
pub use decimal::Dec;
pub use error::{Error, LimitKind};
pub use generated::GeneratedQuote;
pub use greeks::Greeks;
pub use hedging::{DeltaHedger, HedgeOrder, HedgeParams, HedgeReason};
pub use limits::{LimitBreach, PositionLimits};
pub use manager::InventoryManager;
pub use market_data::{MarketDataHandler, MarketDataUpdate, TickData, UpdateType};
pub use pnl::{PnLAttribution, PnLCalculator, PnLSnapshot};
pub use position::Position;
pub use quote_params::{QuoteParams, QuoteParamsError};
pub use risk::{HaltReason, RiskBreach, RiskController, RiskLimits, TradingState};
pub use spread::SpreadCalculator;
