use surface_backed::cell::CurrencyCell;
use surface_backed::platform::PlatformContext;

#[test]
fn a_new_cell_holds_the_context_it_was_given() {
    let cell = CurrencyCell::new(PlatformContext::new(7, false, true));
    assert_eq!(*cell.borrow(), PlatformContext::new(7, false, true));
}

#[test]
fn take_hands_out_the_context_and_insert_fills_the_cell_again() {
    let cell = CurrencyCell::new(PlatformContext::new(7, false, true));
    let (vacant, taken) = cell.take();
    assert_eq!(taken, PlatformContext::new(7, false, true));
    let cell = vacant.insert(taken.treat_as_current());
    assert_eq!(*cell.borrow(), PlatformContext::new(7, true, true));
}

#[test]
fn a_cell_can_be_filled_with_another_context_than_it_gave() {
    let cell = CurrencyCell::new(PlatformContext::new(1, false, true));
    let (vacant, taken) = cell.take();
    assert_eq!(taken.handle, 1);
    let cell = vacant.insert(PlatformContext::new(2, true, false));
    assert_eq!(*cell.borrow(), PlatformContext::new(2, true, false));
    let (vacant, taken) = cell.take();
    assert_eq!(taken, PlatformContext::new(2, true, false));
    let cell = vacant.insert(taken);
    assert_eq!(*cell.borrow(), PlatformContext::new(2, true, false));
}
