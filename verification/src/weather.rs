//! The weather snapshot: batches of gauge readings, one batch per timestamp.

use vstd::prelude::*;

verus! {

/// How many units of rainfall make one millimetre.
pub const UNITS_PER_MM: u32 = 1000;

/// One gauge's rainfall at one timestamp.
#[derive(Clone, Debug, PartialEq, Eq)]
pub struct Reading {
    /// The gauge's station identifier, compared by exact equality.
    pub station_id: String,
    /// Rainfall in thousandths of a millimetre; more than zero means rain.
    pub value: u32,
}

/// What a `Reading` says.
pub ghost struct ReadingModel {
    pub station_id: Seq<char>,
    pub value: u32,
}

impl View for Reading {
    type V = ReadingModel;

    open spec fn view(&self) -> ReadingModel {
        ReadingModel { station_id: self.station_id@, value: self.value }
    }
}

/// The readings taken at one timestamp.
#[derive(Clone, Debug, PartialEq, Eq)]
pub struct Item {
    pub timestamp: String,
    pub readings: Vec<Reading>,
}

/// What an `Item` says.
pub ghost struct ItemModel {
    pub timestamp: Seq<char>,
    pub readings: Seq<ReadingModel>,
}

impl View for Item {
    type V = ItemModel;

    open spec fn view(&self) -> ItemModel {
        ItemModel {
            timestamp: self.timestamp@,
            readings: self.readings@.map_values(|r: Reading| r@),
        }
    }
}

/// A weather snapshot: the batches in the order in which they were reported.
#[derive(Clone, Debug, PartialEq, Eq)]
pub struct Root {
    pub items: Vec<Item>,
}

impl View for Root {
    type V = Seq<ItemModel>;

    open spec fn view(&self) -> Seq<ItemModel> {
        self.items@.map_values(|i: Item| i@)
    }
}

/// Every reading of a snapshot, batch after batch, each batch in its own order.
pub open spec fn all_readings(weather: Seq<ItemModel>) -> Seq<ReadingModel> {
    weather.map_values(|i: ItemModel| i.readings).flatten()
}

/// Whether a reading reports rain.
pub open spec fn is_rain(reading: ReadingModel) -> bool {
    reading.value > 0
}

impl Reading {
    /// Whether this reading reports rain.
    pub fn is_rain(&self) -> (r: bool)
        ensures
            r == is_rain(self@),
    {
        self.value > 0
    }
}

} // verus!
