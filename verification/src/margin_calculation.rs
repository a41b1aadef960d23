use vstd::prelude::*;
use crate::constants::MARGIN_PRECISION_U128;
use crate::constants::PRICE_PRECISION;
use crate::error::ErrorCode;
use crate::margin::same_market;
use crate::margin::MarginRequirementType;
use crate::margin::MarketType;

verus! {

/// How a margin calculation runs: as a plain health check, or for a
/// liquidation, with a buffer on top of the requirement and optional
/// tracking of the margin ratio and of one market.
#[derive(Clone, Copy, Debug)]
pub enum MarginCalculationMode {
    Standard,
    Liquidation {
        /// Share of each liability value that is added to its
        /// requirement, in margin precision.
        margin_buffer: u128,
        /// Whether asset and liability values are summed up for the
        /// margin ratio.
        track_margin_ratio: bool,
        /// The one market whose requirement is summed up on its own.
        market_to_track: Option<(MarketType, u16)>,
    },
}

/// The configuration of one margin calculation.
#[derive(Clone, Copy, Debug)]
pub struct MarginContext {
    pub margin_type: MarginRequirementType,
    pub mode: MarginCalculationMode,
    pub strict: bool,
}

impl MarginContext {
    /// A plain health check at the given tier.
    pub fn standard(margin_type: MarginRequirementType) -> (r: Self)
        ensures
            r.margin_type == margin_type,
            r.mode == MarginCalculationMode::Standard,
            r.strict == false,
    {
        Self { margin_type, mode: MarginCalculationMode::Standard, strict: false }
    }

    /// The same context with the strict flag set as given.
    pub fn strict(self, strict: bool) -> (r: Self)
        ensures
            r == (MarginContext { strict, ..self }),
    {
        let mut context = self;
        context.strict = strict;
        context
    }

    /// A liquidation check at the maintenance tier with the given buffer,
    /// tracking nothing yet.
    pub fn liquidation(margin_buffer: u32) -> (r: Self)
        ensures
            r.margin_type == MarginRequirementType::Maintenance,
            r.mode == (MarginCalculationMode::Liquidation {
                margin_buffer: margin_buffer as u128,
                track_margin_ratio: false,
                market_to_track: None,
            }),
            r.strict == false,
    {
        Self {
            margin_type: MarginRequirementType::Maintenance,
            mode: MarginCalculationMode::Liquidation {
                margin_buffer: margin_buffer as u128,
                track_margin_ratio: false,
                market_to_track: None,
            },
            strict: false,
        }
    }

    /// Turns on tracking of the margin ratio. Only a liquidation context
    /// can track it: any other is refused.
    pub fn track_margin_ratio(self) -> (r: Result<Self, ErrorCode>)
        ensures
            match self.mode {
                MarginCalculationMode::Liquidation { margin_buffer, market_to_track, .. } => r
                    == Ok::<MarginContext, ErrorCode>(
                    MarginContext {
                        mode: MarginCalculationMode::Liquidation {
                            margin_buffer,
                            track_margin_ratio: true,
                            market_to_track,
                        },
                        ..self
                    },
                ),
                MarginCalculationMode::Standard => r == Err::<MarginContext, ErrorCode>(
                    ErrorCode::InvalidMarginCalculation,
                ),
            },
    {
        match self.mode {
            MarginCalculationMode::Liquidation { margin_buffer, market_to_track, .. } => Ok(
                MarginContext {
                    margin_type: self.margin_type,
                    mode: MarginCalculationMode::Liquidation {
                        margin_buffer,
                        track_margin_ratio: true,
                        market_to_track,
                    },
                    strict: self.strict,
                },
            ),
            MarginCalculationMode::Standard => Err(ErrorCode::InvalidMarginCalculation),
        }
    }

    /// Sets the one market whose requirement is tracked, in place of any
    /// set before. Only a liquidation context can track one: any other is
    /// refused.
    pub fn track_market(self, market: (MarketType, u16)) -> (r: Result<Self, ErrorCode>)
        ensures
            match self.mode {
                MarginCalculationMode::Liquidation { margin_buffer, track_margin_ratio, .. } => r
                    == Ok::<MarginContext, ErrorCode>(
                    MarginContext {
                        mode: MarginCalculationMode::Liquidation {
                            margin_buffer,
                            track_margin_ratio,
                            market_to_track: Some(market),
                        },
                        ..self
                    },
                ),
                MarginCalculationMode::Standard => r == Err::<MarginContext, ErrorCode>(
                    ErrorCode::InvalidMarginCalculation,
                ),
            },
    {
        match self.mode {
            MarginCalculationMode::Liquidation { margin_buffer, track_margin_ratio, .. } => Ok(
                MarginContext {
                    margin_type: self.margin_type,
                    mode: MarginCalculationMode::Liquidation {
                        margin_buffer,
                        track_margin_ratio,
                        market_to_track: Some(market),
                    },
                    strict: self.strict,
                },
            ),
            MarginCalculationMode::Standard => Err(ErrorCode::InvalidMarginCalculation),
        }
    }
}

/// The running totals of one solvency evaluation. It is made fresh for an
/// evaluation, fed one position at a time, read, and dropped.
#[derive(Clone, Copy, Debug)]
pub struct MarginCalculation {
    pub context: MarginContext,
    /// Sum of the collateral contributions; a loss counts below zero.
    pub total_collateral: i128,
    /// Sum of the margin requirements.
    pub margin_requirement: u128,
    /// Sum of the margin requirements, each raised by the buffer on its
    /// liability value. Filled in liquidation mode only.
    pub margin_requirement_plus_buffer: u128,
    pub num_spot_liabilities: u8,
    pub num_perp_liabilities: u8,
    /// Whether every oracle seen so far was valid.
    pub all_oracles_valid: bool,
    pub with_isolated_liability: bool,
    /// Filled only while the margin ratio is tracked.
    pub total_spot_asset_value: i128,
    /// Filled only while the margin ratio is tracked.
    pub total_spot_liability_value: u128,
    /// Filled only while the margin ratio is tracked.
    pub total_perp_liability_value: u128,
    /// Sum of the margin requirements of the tracked market. Filled only
    /// where a market is tracked.
    pub tracked_market_margin_requirement: u128,
}

/// A margin requirement raised by the buffer on its liability value.
pub open spec fn buffered_requirement(
    margin_requirement: u128,
    liability_value: u128,
    margin_buffer: u128,
) -> int {
    margin_requirement + liability_value * margin_buffer / (MARGIN_PRECISION_U128 as int)
}

/// What a checked sum of two `u128` totals gives.
pub open spec fn checked_total(total: u128, value: u128) -> Result<u128, ErrorCode> {
    if total + value <= u128::MAX {
        Ok((total + value) as u128)
    } else {
        Err(ErrorCode::MathError)
    }
}

/// What a checked sum of two `i128` totals gives.
pub open spec fn checked_signed_total(total: i128, value: i128) -> Result<i128, ErrorCode> {
    if i128::MIN <= total + value <= i128::MAX {
        Ok((total + value) as i128)
    } else {
        Err(ErrorCode::MathError)
    }
}

impl MarginCalculation {
    /// Whether the calculation runs in liquidation mode.
    pub open spec fn in_liquidation_mode(&self) -> bool {
        self.context.mode is Liquidation
    }

    /// Whether asset and liability values are summed up for the margin
    /// ratio.
    pub open spec fn tracks_margin_ratio(&self) -> bool {
        match self.context.mode {
            MarginCalculationMode::Liquidation { track_margin_ratio, .. } => track_margin_ratio,
            MarginCalculationMode::Standard => false,
        }
    }

    /// The market whose requirement is summed up on its own, if any.
    pub open spec fn tracked_market(&self) -> Option<(MarketType, u16)> {
        match self.context.mode {
            MarginCalculationMode::Liquidation { market_to_track, .. } => market_to_track,
            MarginCalculationMode::Standard => None,
        }
    }

    /// What the mutators keep true from `new` on: a total is zero unless
    /// the mode fills it, and the tracked market owes no more than all
    /// markets together.
    pub open spec fn wf(&self) -> bool {
        &&& !self.in_liquidation_mode() ==> self.margin_requirement_plus_buffer == 0
        &&& self.tracked_market() is None ==> self.tracked_market_margin_requirement == 0
        &&& self.tracked_market_margin_requirement <= self.margin_requirement
        &&& !self.tracks_margin_ratio() ==> {
            &&& self.total_spot_asset_value == 0
            &&& self.total_spot_liability_value == 0
            &&& self.total_perp_liability_value == 0
        }
    }

    /// What holds between a calculation and any earlier state of the same
    /// run: the context is the same, no count and no sum of requirements
    /// is lower, and no oracle has become valid again.
    pub open spec fn follows(self, earlier: Self) -> bool {
        &&& self.context == earlier.context
        &&& self.num_spot_liabilities >= earlier.num_spot_liabilities
        &&& self.num_perp_liabilities >= earlier.num_perp_liabilities
        &&& self.all_oracles_valid ==> earlier.all_oracles_valid
        &&& self.margin_requirement >= earlier.margin_requirement
        &&& self.margin_requirement_plus_buffer >= earlier.margin_requirement_plus_buffer
        &&& self.tracked_market_margin_requirement >= earlier.tracked_market_margin_requirement
        &&& self.total_spot_liability_value >= earlier.total_spot_liability_value
        &&& self.total_perp_liability_value >= earlier.total_perp_liability_value
    }

    /// A calculation that has seen nothing yet.
    pub open spec fn fresh(context: MarginContext) -> Self {
        MarginCalculation {
            context,
            total_collateral: 0,
            margin_requirement: 0,
            margin_requirement_plus_buffer: 0,
            num_spot_liabilities: 0,
            num_perp_liabilities: 0,
            all_oracles_valid: true,
            with_isolated_liability: false,
            total_spot_asset_value: 0,
            total_spot_liability_value: 0,
            total_perp_liability_value: 0,
            tracked_market_margin_requirement: 0,
        }
    }

    /// Starts a calculation: every total zero, every oracle valid so far.
    pub fn new(context: MarginContext) -> (r: Self)
        ensures
            r == Self::fresh(context),
            r.wf(),
    {
        Self {
            context,
            total_collateral: 0,
            margin_requirement: 0,
            margin_requirement_plus_buffer: 0,
            num_spot_liabilities: 0,
            num_perp_liabilities: 0,
            all_oracles_valid: true,
            with_isolated_liability: false,
            total_spot_asset_value: 0,
            total_spot_liability_value: 0,
            total_perp_liability_value: 0,
            tracked_market_margin_requirement: 0,
        }
    }

    /// Adds a collateral contribution. On overflow it fails with the
    /// arithmetic error and changes nothing.
    pub fn add_total_collateral(&mut self, total_collateral: i128) -> (r: Result<(), ErrorCode>)
        ensures
            match checked_signed_total(old(self).total_collateral, total_collateral) {
                Ok(total) => r == Ok::<(), ErrorCode>(()) && *final(self) == (MarginCalculation {
                    total_collateral: total,
                    ..*old(self)
                }),
                Err(e) => r == Err::<(), ErrorCode>(e) && *final(self) == *old(self),
            },
            old(self).wf() ==> final(self).wf(),
            final(self).follows(*old(self)),
    {
        match self.total_collateral.checked_add(total_collateral) {
            Some(total) => {
                self.total_collateral = total;
                Ok(())
            },
            None => Err(ErrorCode::MathError),
        }
    }

    /// Whether the sum of the requirements has room for one more.
    pub open spec fn requirement_fits(&self, margin_requirement: u128) -> bool {
        self.margin_requirement + margin_requirement <= u128::MAX
    }

    /// Whether, in liquidation mode, the buffered sum has room for the
    /// requirement with its buffer, and the buffer itself can be computed.
    pub open spec fn buffer_fits(&self, margin_requirement: u128, liability_value: u128) -> bool {
        match self.context.mode {
            MarginCalculationMode::Standard => true,
            MarginCalculationMode::Liquidation { margin_buffer, .. } => {
                &&& liability_value * margin_buffer <= u128::MAX
                &&& self.margin_requirement_plus_buffer + buffered_requirement(
                    margin_requirement,
                    liability_value,
                    margin_buffer,
                ) <= u128::MAX
            },
        }
    }

    /// Whether, where `market` is the tracked one, its sum has room for
    /// the requirement.
    pub open spec fn tracked_fits(&self, margin_requirement: u128, market: (MarketType, u16)) -> bool {
        self.tracked_market() == Some(market) ==> self.tracked_market_margin_requirement
            + margin_requirement <= u128::MAX
    }

    /// The calculation with the requirement added to the plain sum.
    pub open spec fn with_requirement(self, margin_requirement: u128) -> Self {
        MarginCalculation {
            margin_requirement: (self.margin_requirement + margin_requirement) as u128,
            ..self
        }
    }

    /// The calculation with the requirement and its buffer added to the
    /// buffered sum, in liquidation mode; unchanged in standard mode.
    pub open spec fn with_buffered_requirement(
        self,
        margin_requirement: u128,
        liability_value: u128,
    ) -> Self {
        match self.context.mode {
            MarginCalculationMode::Standard => self,
            MarginCalculationMode::Liquidation { margin_buffer, .. } => MarginCalculation {
                margin_requirement_plus_buffer: (self.margin_requirement_plus_buffer
                    + buffered_requirement(margin_requirement, liability_value, margin_buffer)) as u128,
                ..self
            },
        }
    }

    /// The calculation with the requirement added to the sum of the
    /// tracked market, where `market` is that market; unchanged otherwise.
    pub open spec fn with_tracked_requirement(
        self,
        margin_requirement: u128,
        market: (MarketType, u16),
    ) -> Self {
        if self.tracked_market() == Some(market) {
            MarginCalculation {
                tracked_market_margin_requirement: (self.tracked_market_margin_requirement
                    + margin_requirement) as u128,
                ..self
            }
        } else {
            self
        }
    }

    /// Whether `add_margin_requirement` succeeds.
    pub open spec fn margin_requirement_fits(
        &self,
        margin_requirement: u128,
        liability_value: u128,
        market: (MarketType, u16),
    ) -> bool {
        &&& self.requirement_fits(margin_requirement)
        &&& self.buffer_fits(margin_requirement, liability_value)
        &&& self.tracked_fits(margin_requirement, market)
    }

    /// The calculation after `add_margin_requirement`: the three sums are
    /// raised in turn, and the first that has no room ends it, with the
    /// sums before it raised.
    pub open spec fn margin_requirement_added(
        self,
        margin_requirement: u128,
        liability_value: u128,
        market: (MarketType, u16),
    ) -> Self {
        if !self.requirement_fits(margin_requirement) {
            self
        } else if !self.buffer_fits(margin_requirement, liability_value) {
            self.with_requirement(margin_requirement)
        } else if !self.tracked_fits(margin_requirement, market) {
            self.with_requirement(margin_requirement).with_buffered_requirement(
                margin_requirement,
                liability_value,
            )
        } else {
            self.with_requirement(margin_requirement).with_buffered_requirement(
                margin_requirement,
                liability_value,
            ).with_tracked_requirement(margin_requirement, market)
        }
    }

    /// Adds the margin requirement of one position. The plain sum grows
    /// by the requirement; in liquidation mode the buffered sum grows by
    /// the requirement plus the buffer's share of the liability value;
    /// and where `market` is the tracked market, its sum grows by the
    /// requirement. Fails with the arithmetic error at the first sum that
    /// overflows, and leaves the sums before it raised.
    pub fn add_margin_requirement(
        &mut self,
        margin_requirement: u128,
        liability_value: u128,
        market: (MarketType, u16),
    ) -> (r: Result<(), ErrorCode>)
        ensures
            r == (if old(self).margin_requirement_fits(margin_requirement, liability_value, market) {
                Ok::<(), ErrorCode>(())
            } else {
                Err::<(), ErrorCode>(ErrorCode::MathError)
            }),
            *final(self) == old(self).margin_requirement_added(
                margin_requirement,
                liability_value,
                market,
            ),
            old(self).wf() ==> final(self).wf(),
            final(self).follows(*old(self)),
            old(self).wf() && old(self).requirement_fits(margin_requirement) ==> old(self).tracked_fits(margin_requirement, market),
    {
        match self.margin_requirement.checked_add(margin_requirement) {
            Some(total) => {
                self.margin_requirement = total;
            },
            None => {
                return Err(ErrorCode::MathError);
            },
        }
        if let MarginCalculationMode::Liquidation { margin_buffer, .. } = self.context.mode {
            let buffer = match liability_value.checked_mul(margin_buffer) {
                Some(product) => product / MARGIN_PRECISION_U128,
                None => {
                    return Err(ErrorCode::MathError);
                },
            };
            let buffered = match margin_requirement.checked_add(buffer) {
                Some(buffered) => buffered,
                None => {
                    return Err(ErrorCode::MathError);
                },
            };
            match self.margin_requirement_plus_buffer.checked_add(buffered) {
                Some(total) => {
                    self.margin_requirement_plus_buffer = total;
                },
                None => {
                    return Err(ErrorCode::MathError);
                },
            }
        }
        if let Some(market_to_track) = self.market_to_track() {
            if same_market(market_to_track, market) {
                match self.tracked_market_margin_requirement.checked_add(margin_requirement) {
                    Some(total) => {
                        self.tracked_market_margin_requirement = total;
                    },
                    None => {
                        return Err(ErrorCode::MathError);
                    },
                }
            }
        }
        Ok(())
    }

    /// Whether asset and liability values are summed up for the margin
    /// ratio: in liquidation mode with tracking turned on.
    pub fn track_margin_ratio_enabled(&self) -> (r: bool)
        ensures
            r == self.tracks_margin_ratio(),
    {
        if let MarginCalculationMode::Liquidation { track_margin_ratio, .. } = self.context.mode {
            track_margin_ratio
        } else {
            false
        }
    }

    /// The market whose requirement is summed up on its own, if one was
    /// set.
    pub fn market_to_track(&self) -> (r: Option<(MarketType, u16)>)
        ensures
            r == self.tracked_market(),
    {
        if let MarginCalculationMode::Liquidation { market_to_track, .. } = self.context.mode {
            market_to_track
        } else {
            None
        }
    }

    /// Whether the calculation runs in liquidation mode.
    pub fn is_liquidation_mode(&self) -> (r: bool)
        ensures
            r == self.in_liquidation_mode(),
    {
        match self.context.mode {
            MarginCalculationMode::Liquidation { .. } => true,
            MarginCalculationMode::Standard => false,
        }
    }

    /// The calculation after a spot asset value was handed in: counted
    /// only while the margin ratio is tracked, the value was produced
    /// without error, and the sum has room for it.
    pub open spec fn spot_asset_value_added(self, value: Result<i128, ErrorCode>) -> Self {
        match value {
            Ok(v) if self.tracks_margin_ratio() => match checked_signed_total(
                self.total_spot_asset_value,
                v,
            ) {
                Ok(total) => MarginCalculation { total_spot_asset_value: total, ..self },
                Err(_) => self,
            },
            _ => self,
        }
    }

    /// What handing in a spot asset value returns.
    pub open spec fn spot_asset_value_result(&self, value: Result<i128, ErrorCode>) -> Result<
        (),
        ErrorCode,
    > {
        if !self.tracks_margin_ratio() {
            Ok(())
        } else {
            match value {
                Ok(v) => match checked_signed_total(self.total_spot_asset_value, v) {
                    Ok(_) => Ok(()),
                    Err(e) => Err(e),
                },
                Err(e) => Err(e),
            }
        }
    }

    /// The calculation after a spot liability value was handed in.
    pub open spec fn spot_liability_value_added(self, value: Result<u128, ErrorCode>) -> Self {
        match value {
            Ok(v) if self.tracks_margin_ratio() => match checked_total(
                self.total_spot_liability_value,
                v,
            ) {
                Ok(total) => MarginCalculation { total_spot_liability_value: total, ..self },
                Err(_) => self,
            },
            _ => self,
        }
    }

    /// What handing in a spot liability value returns.
    pub open spec fn spot_liability_value_result(&self, value: Result<u128, ErrorCode>) -> Result<
        (),
        ErrorCode,
    > {
        if !self.tracks_margin_ratio() {
            Ok(())
        } else {
            match value {
                Ok(v) => match checked_total(self.total_spot_liability_value, v) {
                    Ok(_) => Ok(()),
                    Err(e) => Err(e),
                },
                Err(e) => Err(e),
            }
        }
    }

    /// The calculation after a perp liability value was handed in.
    pub open spec fn perp_liability_value_added(self, value: Result<u128, ErrorCode>) -> Self {
        match value {
            Ok(v) if self.tracks_margin_ratio() => match checked_total(
                self.total_perp_liability_value,
                v,
            ) {
                Ok(total) => MarginCalculation { total_perp_liability_value: total, ..self },
                Err(_) => self,
            },
            _ => self,
        }
    }

    /// What handing in a perp liability value returns.
    pub open spec fn perp_liability_value_result(&self, value: Result<u128, ErrorCode>) -> Result<
        (),
        ErrorCode,
    > {
        if !self.tracks_margin_ratio() {
            Ok(())
        } else {
            match value {
                Ok(v) => match checked_total(self.total_perp_liability_value, v) {
                    Ok(_) => Ok(()),
                    Err(e) => Err(e),
                },
                Err(e) => Err(e),
            }
        }
    }

    /// Counts a spot asset value that the caller has produced already.
    /// While the margin ratio is not tracked this does nothing. Otherwise
    /// an error of the producer is handed on, an overflow of the sum is
    /// the arithmetic error, and either leaves the calculation unchanged.
    pub fn record_spot_asset_value(&mut self, value: Result<i128, ErrorCode>) -> (r: Result<
        (),
        ErrorCode,
    >)
        ensures
            r == old(self).spot_asset_value_result(value),
            *final(self) == old(self).spot_asset_value_added(value),
            old(self).wf() ==> final(self).wf(),
            final(self).follows(*old(self)),
    {
        if self.track_margin_ratio_enabled() {
            let value = value?;
            match self.total_spot_asset_value.checked_add(value) {
                Some(total) => {
                    self.total_spot_asset_value = total;
                },
                None => {
                    return Err(ErrorCode::MathError);
                },
            }
        }
        Ok(())
    }

    /// Counts a spot liability value that the caller has produced
    /// already, as `record_spot_asset_value` does for an asset value.
    pub fn record_spot_liability_value(&mut self, value: Result<u128, ErrorCode>) -> (r: Result<
        (),
        ErrorCode,
    >)
        ensures
            r == old(self).spot_liability_value_result(value),
            *final(self) == old(self).spot_liability_value_added(value),
            old(self).wf() ==> final(self).wf(),
            final(self).follows(*old(self)),
    {
        if self.track_margin_ratio_enabled() {
            let value = value?;
            match self.total_spot_liability_value.checked_add(value) {
                Some(total) => {
                    self.total_spot_liability_value = total;
                },
                None => {
                    return Err(ErrorCode::MathError);
                },
            }
        }
        Ok(())
    }

    /// Counts a perp liability value that the caller has produced
    /// already, as `record_spot_asset_value` does for an asset value.
    pub fn record_perp_liability_value(&mut self, value: Result<u128, ErrorCode>) -> (r: Result<
        (),
        ErrorCode,
    >)
        ensures
            r == old(self).perp_liability_value_result(value),
            *final(self) == old(self).perp_liability_value_added(value),
            old(self).wf() ==> final(self).wf(),
            final(self).follows(*old(self)),
    {
        if self.track_margin_ratio_enabled() {
            let value = value?;
            match self.total_perp_liability_value.checked_add(value) {
                Some(total) => {
                    self.total_perp_liability_value = total;
                },
                None => {
                    return Err(ErrorCode::MathError);
                },
            }
        }
        Ok(())
    }

    /// Adds a spot asset value that is produced on demand: the producer
    /// runs only while the margin ratio is tracked, and what it gives is
    /// counted as `record_spot_asset_value` counts it. Otherwise nothing
    /// runs and nothing changes.
    pub fn add_spot_asset_value<F: Fn() -> Result<i128, ErrorCode>>(
        &mut self,
        asset_value_fn: F,
    ) -> (r: Result<(), ErrorCode>)
        requires
            old(self).tracks_margin_ratio() ==> call_requires(asset_value_fn, ()),
        ensures
            !old(self).tracks_margin_ratio() ==> r == Ok::<(), ErrorCode>(()) && *final(self)
                == *old(self),
            old(self).tracks_margin_ratio() ==> exists|value: Result<i128, ErrorCode>|
                #![trigger call_ensures(asset_value_fn, (), value)]
                {
                    &&& call_ensures(asset_value_fn, (), value)
                    &&& r == old(self).spot_asset_value_result(value)
                    &&& *final(self) == old(self).spot_asset_value_added(value)
                },
            old(self).wf() ==> final(self).wf(),
            final(self).follows(*old(self)),
    {
        if self.track_margin_ratio_enabled() {
            let value = asset_value_fn();
            self.record_spot_asset_value(value)
        } else {
            Ok(())
        }
    }

    /// Adds a spot liability value that is produced on demand, as
    /// `add_spot_asset_value` does for an asset value.
    pub fn add_spot_liability_value<F: Fn() -> Result<u128, ErrorCode>>(
        &mut self,
        liability_value_fn: F,
    ) -> (r: Result<(), ErrorCode>)
        requires
            old(self).tracks_margin_ratio() ==> call_requires(liability_value_fn, ()),
        ensures
            !old(self).tracks_margin_ratio() ==> r == Ok::<(), ErrorCode>(()) && *final(self)
                == *old(self),
            old(self).tracks_margin_ratio() ==> exists|value: Result<u128, ErrorCode>|
                #![trigger call_ensures(liability_value_fn, (), value)]
                {
                    &&& call_ensures(liability_value_fn, (), value)
                    &&& r == old(self).spot_liability_value_result(value)
                    &&& *final(self) == old(self).spot_liability_value_added(value)
                },
            old(self).wf() ==> final(self).wf(),
            final(self).follows(*old(self)),
    {
        if self.track_margin_ratio_enabled() {
            let value = liability_value_fn();
            self.record_spot_liability_value(value)
        } else {
            Ok(())
        }
    }

    /// Adds a perp liability value that is produced on demand, as
    /// `add_spot_asset_value` does for an asset value.
    pub fn add_perp_liability_value<F: Fn() -> Result<u128, ErrorCode>>(
        &mut self,
        perp_value_fn: F,
    ) -> (r: Result<(), ErrorCode>)
        requires
            old(self).tracks_margin_ratio() ==> call_requires(perp_value_fn, ()),
        ensures
            !old(self).tracks_margin_ratio() ==> r == Ok::<(), ErrorCode>(()) && *final(self)
                == *old(self),
            old(self).tracks_margin_ratio() ==> exists|value: Result<u128, ErrorCode>|
                #![trigger call_ensures(perp_value_fn, (), value)]
                {
                    &&& call_ensures(perp_value_fn, (), value)
                    &&& r == old(self).perp_liability_value_result(value)
                    &&& *final(self) == old(self).perp_liability_value_added(value)
                },
            old(self).wf() ==> final(self).wf(),
            final(self).follows(*old(self)),
    {
        if self.track_margin_ratio_enabled() {
            let value = perp_value_fn();
            self.record_perp_liability_value(value)
        } else {
            Ok(())
        }
    }

    /// Counts one more spot liability. A full counter fails with the
    /// arithmetic error and stays as it is.
    pub fn add_spot_liability(&mut self) -> (r: Result<(), ErrorCode>)
        ensures
            old(self).num_spot_liabilities < u8::MAX ==> r == Ok::<(), ErrorCode>(()) && *final(self) == (MarginCalculation {
                num_spot_liabilities: (old(self).num_spot_liabilities + 1) as u8,
                ..*old(self)
            }),
            old(self).num_spot_liabilities == u8::MAX ==> r == Err::<(), ErrorCode>(
                ErrorCode::MathError,
            ) && *final(self) == *old(self),
            old(self).wf() ==> final(self).wf(),
            final(self).follows(*old(self)),
    {
        match self.num_spot_liabilities.checked_add(1) {
            Some(count) => {
                self.num_spot_liabilities = count;
                Ok(())
            },
            None => Err(ErrorCode::MathError),
        }
    }

    /// Counts one more perp liability. A full counter fails with the
    /// arithmetic error and stays as it is.
    pub fn add_perp_liability(&mut self) -> (r: Result<(), ErrorCode>)
        ensures
            old(self).num_perp_liabilities < u8::MAX ==> r == Ok::<(), ErrorCode>(()) && *final(self) == (MarginCalculation {
                num_perp_liabilities: (old(self).num_perp_liabilities + 1) as u8,
                ..*old(self)
            }),
            old(self).num_perp_liabilities == u8::MAX ==> r == Err::<(), ErrorCode>(
                ErrorCode::MathError,
            ) && *final(self) == *old(self),
            old(self).wf() ==> final(self).wf(),
            final(self).follows(*old(self)),
    {
        match self.num_perp_liabilities.checked_add(1) {
            Some(count) => {
                self.num_perp_liabilities = count;
                Ok(())
            },
            None => Err(ErrorCode::MathError),
        }
    }

    /// Records whether one more oracle was valid. Once an invalid one was
    /// seen the flag stays false.
    pub fn update_all_oracles_valid(&mut self, valid: bool)
        ensures
            *final(self) == (MarginCalculation {
                all_oracles_valid: old(self).all_oracles_valid && valid,
                ..*old(self)
            }),
            old(self).wf() ==> final(self).wf(),
            final(self).follows(*old(self)),
    {
        self.all_oracles_valid = self.all_oracles_valid && valid;
    }

    /// Checks the one invariant between the totals: where a spot
    /// liability was counted, some margin must be required. A calculation
    /// that breaks it is refused.
    pub fn validate_num_spot_liabilities(&self) -> (r: Result<(), ErrorCode>)
        ensures
            r == (if self.num_spot_liabilities > 0 && self.margin_requirement == 0 {
                Err::<(), ErrorCode>(ErrorCode::InvalidMarginRatio)
            } else {
                Ok::<(), ErrorCode>(())
            }),
    {
        if self.num_spot_liabilities > 0 && self.margin_requirement == 0 {
            return Err(ErrorCode::InvalidMarginRatio);
        }
        Ok(())
    }

    /// The number of liabilities counted, spot and perp together, or the
    /// arithmetic error where that does not fit the counter.
    pub fn get_num_of_liabilities(&self) -> (r: Result<u8, ErrorCode>)
        ensures
            r == (if self.num_spot_liabilities + self.num_perp_liabilities <= u8::MAX {
                Ok::<u8, ErrorCode>((self.num_spot_liabilities + self.num_perp_liabilities) as u8)
            } else {
                Err::<u8, ErrorCode>(ErrorCode::MathError)
            }),
    {
        match self.num_spot_liabilities.checked_add(self.num_perp_liabilities) {
            Some(count) => Ok(count),
            None => Err(ErrorCode::MathError),
        }
    }

    /// Whether the collateral covers the margin requirement.
    pub fn meets_margin_requirement(&self) -> (r: bool)
        ensures
            r == (self.total_collateral >= self.margin_requirement),
    {
        covers(self.total_collateral, self.margin_requirement)
    }

    /// Whether the collateral covers the buffered requirement, so that
    /// the account may leave liquidation. Refused outside liquidation
    /// mode.
    pub fn can_exit_liquidation(&self) -> (r: Result<bool, ErrorCode>)
        ensures
            r == (if self.in_liquidation_mode() {
                Ok::<bool, ErrorCode>(self.total_collateral >= self.margin_requirement_plus_buffer)
            } else {
                Err::<bool, ErrorCode>(ErrorCode::InvalidMarginCalculation)
            }),
    {
        if !self.is_liquidation_mode() {
            return Err(ErrorCode::InvalidMarginCalculation);
        }
        Ok(covers(self.total_collateral, self.margin_requirement_plus_buffer))
    }

    /// What `margin_shortage` returns.
    pub open spec fn margin_shortage_result(&self) -> Result<u128, ErrorCode> {
        let difference = self.margin_requirement_plus_buffer - self.total_collateral;
        if !self.in_liquidation_mode() {
            Err(ErrorCode::InvalidMarginCalculation)
        } else if self.margin_requirement_plus_buffer > i128::MAX {
            Err(ErrorCode::CastingFailure)
        } else if difference > i128::MAX {
            Err(ErrorCode::MathError)
        } else {
            Ok(magnitude(difference) as u128)
        }
    }

    /// The distance between the buffered requirement and the collateral:
    /// what is missing to leave liquidation. Refused outside liquidation
    /// mode. Fails with the casting error if the buffered requirement does
    /// not fit an `i128`, and with the arithmetic error if the difference
    /// does not.
    pub fn margin_shortage(&self) -> (r: Result<u128, ErrorCode>)
        ensures
            r == self.margin_shortage_result(),
    {
        if !self.is_liquidation_mode() {
            return Err(ErrorCode::InvalidMarginCalculation);
        }
        let requirement = cast_to_i128(self.margin_requirement_plus_buffer)?;
        match requirement.checked_sub(self.total_collateral) {
            Some(difference) => Ok(unsigned_magnitude(difference)),
            None => Err(ErrorCode::MathError),
        }
    }

    /// What `tracked_market_margin_shortage` returns.
    pub open spec fn tracked_market_margin_shortage_result(&self, margin_shortage: u128) -> Result<
        u128,
        ErrorCode,
    > {
        if self.tracked_market() is None {
            Err(ErrorCode::InvalidMarginCalculation)
        } else if self.margin_requirement == 0 {
            Ok(0)
        } else if margin_shortage * self.tracked_market_margin_requirement > u128::MAX {
            Err(ErrorCode::MathError)
        } else {
            Ok(
                ((margin_shortage * self.tracked_market_margin_requirement) / (
                self.margin_requirement as int)) as u128,
            )
        }
    }

    /// The part of a shortage that falls to the tracked market: the
    /// shortage times the share of that market in the margin requirement,
    /// and nothing where no margin is required. Refused where no market is
    /// tracked. Fails with the arithmetic error if the product overflows.
    pub fn tracked_market_margin_shortage(&self, margin_shortage: u128) -> (r: Result<
        u128,
        ErrorCode,
    >)
        ensures
            r == self.tracked_market_margin_shortage_result(margin_shortage),
    {
        if self.market_to_track().is_none() {
            return Err(ErrorCode::InvalidMarginCalculation);
        }
        if self.margin_requirement == 0 {
            return Ok(0);
        }
        match margin_shortage.checked_mul(self.tracked_market_margin_requirement) {
            Some(product) => Ok(product / self.margin_requirement),
            None => Err(ErrorCode::MathError),
        }
    }

    /// What `get_free_collateral` returns.
    pub open spec fn free_collateral_result(&self) -> Result<u128, ErrorCode> {
        let surplus = self.total_collateral - self.margin_requirement;
        if self.margin_requirement > i128::MAX {
            Err(ErrorCode::CastingFailure)
        } else if surplus < i128::MIN {
            Err(ErrorCode::MathError)
        } else if surplus > 0 {
            Ok(surplus as u128)
        } else {
            Ok(0)
        }
    }

    /// The collateral beyond the margin requirement, and zero where there
    /// is none. Fails with the casting error if the requirement does not
    /// fit an `i128`, and with the arithmetic error if the difference does
    /// not.
    pub fn get_free_collateral(&self) -> (r: Result<u128, ErrorCode>)
        ensures
            r == self.free_collateral_result(),
    {
        let requirement = cast_to_i128(self.margin_requirement)?;
        match self.total_collateral.checked_sub(requirement) {
            Some(surplus) => {
                if surplus > 0 {
                    Ok(surplus as u128)
                } else {
                    Ok(0)
                }
            },
            None => Err(ErrorCode::MathError),
        }
    }

    /// Spot assets beyond spot liabilities, and zero where there are
    /// none.
    pub open spec fn net_spot_asset_value(&self) -> int {
        if self.total_spot_asset_value > self.total_spot_liability_value {
            self.total_spot_asset_value - self.total_spot_liability_value
        } else {
            0
        }
    }

    /// What `get_margin_ratio` returns.
    pub open spec fn margin_ratio_result(&self) -> Result<u128, ErrorCode> {
        let net = self.net_spot_asset_value();
        let liabilities = self.total_perp_liability_value + self.total_spot_liability_value;
        if !self.tracks_margin_ratio() {
            Err(ErrorCode::InvalidMarginCalculation)
        } else if net == 0 {
            Ok(0)
        } else if net * PRICE_PRECISION > u128::MAX || liabilities > u128::MAX || liabilities == 0 {
            Err(ErrorCode::MathError)
        } else {
            Ok((net * PRICE_PRECISION / liabilities) as u128)
        }
    }

    /// The net spot asset value per unit of liability, spot and perp
    /// together, in price precision; zero where the net value is zero or
    /// the assets are negative. Refused unless the margin ratio is
    /// tracked. Fails with the arithmetic error if the scaled net value or
    /// the sum of the liabilities overflows, or there are no liabilities.
    pub fn get_margin_ratio(&self) -> (r: Result<u128, ErrorCode>)
        ensures
            r == self.margin_ratio_result(),
    {
        if !self.track_margin_ratio_enabled() {
            return Err(ErrorCode::InvalidMarginCalculation);
        }
        if self.total_spot_asset_value < 0 {
            return Ok(0);
        }
        let net_asset_value = unsigned_magnitude(self.total_spot_asset_value).saturating_sub(
            self.total_spot_liability_value,
        );
        if net_asset_value == 0 {
            return Ok(0);
        }
        let scaled = match net_asset_value.checked_mul(PRICE_PRECISION) {
            Some(scaled) => scaled,
            None => {
                return Err(ErrorCode::MathError);
            },
        };
        let liabilities = match self.total_perp_liability_value.checked_add(
            self.total_spot_liability_value,
        ) {
            Some(liabilities) => liabilities,
            None => {
                return Err(ErrorCode::MathError);
            },
        };
        match scaled.checked_div(liabilities) {
            Some(ratio) => Ok(ratio),
            None => Err(ErrorCode::MathError),
        }
    }
}

/// The distance of a number from zero.
pub open spec fn magnitude(x: int) -> int {
    if x >= 0 {
        x
    } else {
        -x
    }
}

/// The distance of a number from zero, which always fits a `u128`.
pub fn unsigned_magnitude(x: i128) -> (r: u128)
    ensures
        r == magnitude(x as int),
{
    if x >= 0 {
        x as u128
    } else {
        let above: i128 = -(x + 1);
        above as u128 + 1
    }
}

/// A `u128` as an `i128`, or the casting error where it does not fit.
pub fn cast_to_i128(x: u128) -> (r: Result<i128, ErrorCode>)
    ensures
        r == (if x <= i128::MAX {
            Ok::<i128, ErrorCode>(x as i128)
        } else {
            Err::<i128, ErrorCode>(ErrorCode::CastingFailure)
        }),
{
    if x <= i128::MAX as u128 {
        Ok(x as i128)
    } else {
        Err(ErrorCode::CastingFailure)
    }
}

/// Whether a signed amount reaches an unsigned one.
pub fn covers(amount: i128, threshold: u128) -> (r: bool)
    ensures
        r == (amount >= threshold),
{
    if amount < 0 {
        false
    } else {
        amount as u128 >= threshold
    }
}

} // verus!
