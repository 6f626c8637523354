//! The nation a player plays for.

use vstd::prelude::*;
use vstd::string::*;

verus! {

/// The continents by which a ranking can be narrowed.
#[derive(Clone, Copy, Debug, PartialEq, Eq)]
pub enum Continent {
    Asia,
    Europe,
    AustraliaAndOceania,
    Africa,
    NorthAmerica,
    SouthAmerica,
    MiddleAmerica,
}

impl Continent {
    /// The name of the continent in the database.
    pub open spec fn sql_name(self) -> Seq<char> {
        match self {
            Continent::Asia => "Asia"@,
            Continent::Europe => "Europe"@,
            Continent::AustraliaAndOceania => "Australia and Oceania"@,
            Continent::Africa => "Africa"@,
            Continent::NorthAmerica => "North America"@,
            Continent::SouthAmerica => "South America"@,
            Continent::MiddleAmerica => "Central America"@,
        }
    }

    pub fn to_sql(&self) -> (name: String)
        ensures
            name@ == self.sql_name(),
    {
        match self {
            Continent::Asia => String::from_str("Asia"),
            Continent::Europe => String::from_str("Europe"),
            Continent::AustraliaAndOceania => String::from_str("Australia and Oceania"),
            Continent::Africa => String::from_str("Africa"),
            Continent::NorthAmerica => String::from_str("North America"),
            Continent::SouthAmerica => String::from_str("South America"),
            Continent::MiddleAmerica => String::from_str("Central America"),
        }
    }
}

/// A part of a nation.
#[derive(Clone, Debug, PartialEq, Eq)]
pub struct Subdivision {
    pub iso_code: String,
    pub name: String,
}

/// A nation, with the subdivision of it where one is known.
#[derive(Clone, Debug, PartialEq, Eq)]
pub struct Nationality {
    pub iso_country_code: String,
    pub nation: String,
    pub subdivision: Option<Subdivision>,
}

impl Nationality {
    /// The nationality that the two columns of a joined row stand for.
    ///
    /// The join leaves both columns empty for a player without a nation. A
    /// nationality is built only from a row that holds both; a row that holds
    /// just one of them stands for none, never for half a nationality. The
    /// rows of a page carry no subdivision.
    pub open spec fn joined(nation: Option<String>, iso_country_code: Option<String>) -> Option<
        Nationality,
    > {
        match (nation, iso_country_code) {
            (Some(nation), Some(iso_country_code)) => Some(
                Nationality { iso_country_code, nation, subdivision: None },
            ),
            _ => None,
        }
    }

    pub fn from_columns(nation: Option<String>, iso_country_code: Option<String>) -> (nationality:
        Option<Nationality>)
        ensures
            nationality == Nationality::joined(nation, iso_country_code),
    {
        match (nation, iso_country_code) {
            (Some(nation), Some(iso_country_code)) => Some(
                Nationality { iso_country_code, nation, subdivision: None },
            ),
            _ => None,
        }
    }
}

} // verus!
