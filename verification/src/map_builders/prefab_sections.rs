//! A hand-drawn level section that a builder may lay over one edge of a
//! generated map. The template's rows are padded with spaces to its full
//! width.

use vstd::prelude::*;

verus! {

/// Where a section sits across the map.
#[derive(Clone, Copy, Debug, PartialEq, Eq, Structural)]
pub enum HorizontalPlacement {
    Left,
    Center,
    Right,
}

/// Where a section sits down the map.
#[derive(Clone, Copy, Debug, PartialEq, Eq, Structural)]
pub enum VerticalPlacement {
    Top,
    Center,
    Bottom,
}

/// A hand-drawn section: its template, its size, and its placement.
#[derive(Clone, Copy, Debug, PartialEq, Eq)]
pub struct PrefabSection {
    pub name: &'static str,
    pub template: &'static str,
    pub width: usize,
    pub height: usize,
    pub placement: (HorizontalPlacement, VerticalPlacement),
}

/// A fortified corridor the full height of a map, for its right edge.
pub fn underground_fort() -> (r: PrefabSection)
    ensures
        r == (PrefabSection {
            name: "underground fort",
            template: "
     #         
  #######      
  #     #      
  #     #######
  #  g        #
  #     #######
  #     #      
  ### ###      
    # #        
    # #        
    # ##       
    ^          
    ^          
    # ##       
    # #        
    # #        
    # #        
    # #        
  ### ###      
  #     #      
  #     #      
  #  g  #      
  #     #      
  #     #      
  ### ###      
    # #        
    # #        
    # #        
    # ##       
    ^          
    ^          
    # ##       
    # #        
    # #        
    # #        
  ### ###      
  #     #      
  #     #######
  #  g        #
  #     #######
  #     #      
  #######      
     #         
",
            width: 15,
            height: 43,
            placement: (HorizontalPlacement::Right, VerticalPlacement::Top),
        }),
{
    PrefabSection {
        name: "underground fort",
        template: "
     #         
  #######      
  #     #      
  #     #######
  #  g        #
  #     #######
  #     #      
  ### ###      
    # #        
    # #        
    # ##       
    ^          
    ^          
    # ##       
    # #        
    # #        
    # #        
    # #        
  ### ###      
  #     #      
  #     #      
  #  g  #      
  #     #      
  #     #      
  ### ###      
    # #        
    # #        
    # #        
    # ##       
    ^          
    ^          
    # ##       
    # #        
    # #        
    # #        
  ### ###      
  #     #      
  #     #######
  #  g        #
  #     #######
  #     #      
  #######      
     #         
",
        width: 15,
        height: 43,
        placement: (HorizontalPlacement::Right, VerticalPlacement::Top),
    }
}

} // verus!
