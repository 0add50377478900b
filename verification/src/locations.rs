//! The fixed upstream locations that the source adapters poll, with the
//! station codes their query strings carry and their display names.

use vstd::prelude::*;

verus! {

/// The automatic weather stations of the station-observation adapter.
pub enum AWSLocation {
    Wontong,
    Seohwa,
    Jinburyeong,
    Hyangnobong,
    Inje,
    Haean,
}

impl AWSLocation {
    pub open spec fn code_spec(&self) -> u32 {
        match self {
            AWSLocation::Wontong => 321,
            AWSLocation::Seohwa => 594,
            AWSLocation::Jinburyeong => 595,
            AWSLocation::Hyangnobong => 320,
            AWSLocation::Inje => 211,
            AWSLocation::Haean => 518,
        }
    }

    /// The station code the upstream query string carries.
    pub fn code(&self) -> (r: u32)
        ensures
            r == self.code_spec(),
    {
        match self {
            AWSLocation::Wontong => 321,
            AWSLocation::Seohwa => 594,
            AWSLocation::Jinburyeong => 595,
            AWSLocation::Hyangnobong => 320,
            AWSLocation::Inje => 211,
            AWSLocation::Haean => 518,
        }
    }

    pub open spec fn name_spec(&self) -> Seq<char> {
        match self {
            AWSLocation::Wontong => "원통"@,
            AWSLocation::Seohwa => "서화"@,
            AWSLocation::Jinburyeong => "진부령"@,
            AWSLocation::Hyangnobong => "향로봉"@,
            AWSLocation::Inje => "인제"@,
            AWSLocation::Haean => "해안"@,
        }
    }

    /// The station's display name.
    pub fn to_string(&self) -> (r: String)
        ensures
            r@ == self.name_spec(),
    {
        match self {
            AWSLocation::Wontong => "원통".to_owned(),
            AWSLocation::Seohwa => "서화".to_owned(),
            AWSLocation::Jinburyeong => "진부령".to_owned(),
            AWSLocation::Hyangnobong => "향로봉".to_owned(),
            AWSLocation::Inje => "인제".to_owned(),
            AWSLocation::Haean => "해안".to_owned(),
        }
    }
}

/// The forecast points of the short-forecast adapter.
pub enum ForecastLocation {
    Wontong,
    Sudong,
}

impl ForecastLocation {
    pub open spec fn code_spec(&self) -> u64 {
        match self {
            ForecastLocation::Wontong => 4281032000,
            ForecastLocation::Sudong => 4282034000,
        }
    }

    /// The area code the upstream query string carries.
    pub fn code(&self) -> (r: u64)
        ensures
            r == self.code_spec(),
    {
        match self {
            ForecastLocation::Wontong => 4281032000,
            ForecastLocation::Sudong => 4282034000,
        }
    }

    pub open spec fn name_spec(&self) -> Seq<char> {
        match self {
            ForecastLocation::Wontong => "원통"@,
            ForecastLocation::Sudong => "수동"@,
        }
    }

    /// The point's display name.
    pub fn to_string(&self) -> (r: String)
        ensures
            r@ == self.name_spec(),
    {
        match self {
            ForecastLocation::Wontong => "원통".to_owned(),
            ForecastLocation::Sudong => "수동".to_owned(),
        }
    }
}

} // verus!
