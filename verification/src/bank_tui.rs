//! The presentation layer's root state: the ledger plus the screen being
//! shown. The event loop that drives it lives outside the library.

use crate::bank::Bank;
use crate::screens::Screen;
use vstd::prelude::*;

verus! {

pub struct BankTui {
    pub bank: Bank,
    pub current_screen: Screen,
}

impl BankTui {
    /// A fresh session: an empty ledger, looking at the main menu.
    pub fn new() -> (r: BankTui)
        ensures
            r.bank.wf(),
            r.bank.customers@ =~= Seq::<crate::customer::Customer>::empty(),
            r.bank.accounts@ =~= Seq::<crate::account::Account>::empty(),
            r.current_screen is MainMenu,
    {
        BankTui { bank: Bank::new(), current_screen: Screen::MainMenu }
    }

    pub fn get_bank(&self) -> (r: &Bank)
        ensures
            r == &self.bank,
    {
        &self.bank
    }

    pub fn get_bank_mut(&mut self) -> (r: &mut Bank)
        ensures
            *r == old(self).bank,
            final(self).bank == *final(r),
            final(self).current_screen == old(self).current_screen,
    {
        &mut self.bank
    }

    pub fn get_screen(&self) -> (r: &Screen)
        ensures
            r == &self.current_screen,
    {
        &self.current_screen
    }

    pub fn set_screen(&mut self, screen: Screen)
        ensures
            final(self).current_screen == screen,
            final(self).bank == old(self).bank,
    {
        self.current_screen = screen;
    }
}

} // verus!
