//! Small hand-drawn vaults, kept as character templates: `#` a wall, `^` a
//! trap, `!` a potion, `g` a goblin, `%` rations, a space open floor. The
//! rows are padded with spaces to the vault's full width.

use vstd::prelude::*;

verus! {

/// A hand-drawn vault: its template, its size, and the depths it may
/// appear at.
#[derive(Clone, Copy, Debug, PartialEq, Eq)]
pub struct PrefabRoom {
    pub name: &'static str,
    pub template: &'static str,
    pub width: usize,
    pub height: usize,
    pub first_depth: i32,
    pub last_depth: i32,
}

/// A five-by-five ring of traps around a potion.
pub fn totally_not_a_trap() -> (r: PrefabRoom)
    ensures
        r == (PrefabRoom {
            name: "totally not a trap",
            template: "
     
 ^^^ 
 ^!^ 
 ^^^ 
     
",
            width: 5,
            height: 5,
            first_depth: 0,
            last_depth: 100,
        }),
{
    PrefabRoom {
        name: "totally not a trap",
        template: "
     
 ^^^ 
 ^!^ 
 ^^^ 
     
",
        width: 5,
        height: 5,
        first_depth: 0,
        last_depth: 100,
    }
}

/// A six-by-six face drawn in walls and traps.
pub fn silly_smile() -> (r: PrefabRoom)
    ensures
        r == (PrefabRoom {
            name: "silly smile",
            template: "
      
 ^  ^ 
  #   
      
 ###  
      
",
            width: 6,
            height: 6,
            first_depth: 0,
            last_depth: 100,
        }),
{
    PrefabRoom {
        name: "silly smile",
        template: "
      
 ^  ^ 
  #   
      
 ###  
      
",
        width: 6,
        height: 6,
        first_depth: 0,
        last_depth: 100,
    }
}

/// A six-by-five checkerboard of walls holding a goblin, rations, a potion and a trap.
pub fn checkerboard() -> (r: PrefabRoom)
    ensures
        r == (PrefabRoom {
            name: "checkerboard",
            template: "
      
 g#%# 
 #!#  
 ^# # 
      
",
            width: 6,
            height: 5,
            first_depth: 0,
            last_depth: 100,
        }),
{
    PrefabRoom {
        name: "checkerboard",
        template: "
      
 g#%# 
 #!#  
 ^# # 
      
",
        width: 6,
        height: 5,
        first_depth: 0,
        last_depth: 100,
    }
}

} // verus!
