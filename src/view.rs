use vstd::prelude::*;

verus! {

/// The display state that the interaction loop lends to the view: the
/// selected entry, the information text and the name of the focused block.
pub struct MainView<'a> {
    selected_index: &'a mut usize,
    input_info: &'a mut String,
    focused_block: &'a mut str,
}

/// The current values behind the three borrows of a `MainView`.
pub struct MainViewView {
    pub selected_index: usize,
    pub input_info: Seq<char>,
    pub focused_block: Seq<char>,
}

impl<'a> View for MainView<'a> {
    type V = MainViewView;

    closed spec fn view(&self) -> MainViewView {
        MainViewView {
            selected_index: *self.selected_index,
            input_info: self.input_info@,
            focused_block: self.focused_block@,
        }
    }
}

impl<'a> MainView<'a> {
    pub fn new(selected_index: &'a mut usize, input_info: &'a mut String, focused_block: &'a mut str) -> (r: Self)
        ensures
            r@ == (MainViewView {
                selected_index: *old(selected_index),
                input_info: old(input_info)@,
                focused_block: old(focused_block)@,
            }),
    {
        Self { selected_index, input_info, focused_block }
    }

    pub fn selected_index(&self) -> (r: usize)
        ensures
            r == self@.selected_index,
    {
        *self.selected_index
    }

    pub fn input_info(&self) -> (r: &str)
        ensures
            r@ == self@.input_info,
    {
        self.input_info.as_str()
    }

    pub fn focused_block(&self) -> (r: &str)
        ensures
            r@ == self@.focused_block,
    {
        &*self.focused_block
    }
}

} // verus!
