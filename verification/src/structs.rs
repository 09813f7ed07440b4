use vstd::prelude::*;

verus! {

/// The dictionaries a host can offer to choose from.
pub enum Dictionary {
    /// ko-dic
    Korean,
    /// ipadic
    JapaneseIpadic,
    /// unidic
    JapaneseUnidic,
    /// cc-cedict
    Chinese,
}

/// The days of the week.
pub enum Weekdays {
    Monday,
    Tuesday,
    Wednesday,
    Thursday,
    Friday,
    Saturday,
    Sunday,
}

} // verus!
