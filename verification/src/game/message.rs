use vstd::prelude::*;

verus! {

#[derive(PartialEq, Eq, Structural, Clone, Copy, Debug)]
pub enum NameMessageType {
    Pistol,
    Shotgun,
}

#[derive(PartialEq, Eq, Structural, Clone, Copy, Debug)]
pub enum ActionMessageType {
    PlayerOpenDoor,
    PlayerCloseDoor,
}

#[derive(PartialEq, Eq, Structural, Clone, Copy, Debug)]
pub enum DescriptionMessageType {
    Pistol,
    Shotgun,
}

} // verus!
