//! The texture-map views a viewport can display.

use vstd::prelude::*;

verus! {

/// Which of the sprite's maps (or the lit composite) a viewport shows.
#[derive(Clone, Copy, PartialEq, Eq, Structural, Debug)]
pub enum MapType {
    Albedo,
    Normal,
    Roughness,
    Height,
    Rendered,
}

impl MapType {
    /// The value the shader selects the view by.
    pub open spec fn index_spec(self) -> u32 {
        match self {
            MapType::Albedo => 0,
            MapType::Normal => 1,
            MapType::Roughness => 2,
            MapType::Height => 3,
            MapType::Rendered => 4,
        }
    }

    /// The value the shader selects the view by.
    pub fn index(self) -> (r: u32)
        ensures
            r == self.index_spec(),
    {
        match self {
            MapType::Albedo => 0,
            MapType::Normal => 1,
            MapType::Roughness => 2,
            MapType::Height => 3,
            MapType::Rendered => 4,
        }
    }

    /// All five views, in menu order.
    pub fn types() -> (r: Vec<MapType>)
        ensures
            r@.len() == 5,
            r@[0] == MapType::Albedo,
            r@[1] == MapType::Normal,
            r@[2] == MapType::Roughness,
            r@[3] == MapType::Height,
            r@[4] == MapType::Rendered,
    {
        let mut v: Vec<MapType> = Vec::new();
        v.push(MapType::Albedo);
        v.push(MapType::Normal);
        v.push(MapType::Roughness);
        v.push(MapType::Height);
        v.push(MapType::Rendered);
        v
    }

    /// The view's menu label.
    pub fn name(self) -> (r: String)
        ensures
            self == MapType::Albedo ==> r@ == "Albedo"@,
            self == MapType::Normal ==> r@ == "Normal"@,
            self == MapType::Roughness ==> r@ == "Roughness"@,
            self == MapType::Height ==> r@ == "Height"@,
            self == MapType::Rendered ==> r@ == "Rendered"@,
    {
        match self {
            MapType::Albedo => "Albedo".to_owned(),
            MapType::Normal => "Normal".to_owned(),
            MapType::Roughness => "Roughness".to_owned(),
            MapType::Height => "Height".to_owned(),
            MapType::Rendered => "Rendered".to_owned(),
        }
    }
}

} // verus!
