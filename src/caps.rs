use vstd::prelude::*;
use crate::error::PrintError;

verus! {

/// Capabilities of a device: resolution, page size, printable area and the
/// four margins, all in device units.
#[derive(Clone, Copy, Debug, PartialEq, Eq, Structural)]
pub struct DeviceCaps {
    pub dpi_x: i32,
    pub dpi_y: i32,
    pub page_width: i32,
    pub page_height: i32,
    pub print_table_width: i32,
    pub print_table_height: i32,
    pub margin_top: i32,
    pub margin_left: i32,
    pub margin_right: i32,
    pub margin_bottom: i32,
}

/// What remains of a page dimension beside the printable area and the
/// opposite margin.
pub open spec fn remaining_margin(page: int, printable: int, opposite: int) -> int {
    page - printable - opposite
}

/// The four margins derived from the queried page, printable area and
/// offsets are all non-negative and fit in an `i32`.
pub open spec fn margins_consistent(
    page_width: int,
    page_height: int,
    print_table_width: int,
    print_table_height: int,
    offset_x: int,
    offset_y: int,
) -> bool {
    &&& offset_x >= 0
    &&& offset_y >= 0
    &&& 0 <= remaining_margin(page_width, print_table_width, offset_x) <= i32::MAX
    &&& 0 <= remaining_margin(page_height, print_table_height, offset_y) <= i32::MAX
}

impl DeviceCaps {
    /// Derives the capabilities from the queried resolution, physical page
    /// size, printable area and physical offsets (the left and top margins).
    /// The right and bottom margins are what remains of the page. A device
    /// that reports a negative margin, or one out of range, is reporting
    /// inconsistently: that fails with `InvalidInput` rather than being
    /// corrected.
    pub fn from_measurements(
        dpi_x: i32,
        dpi_y: i32,
        page_width: i32,
        page_height: i32,
        print_table_width: i32,
        print_table_height: i32,
        offset_x: i32,
        offset_y: i32,
    ) -> (r: Result<DeviceCaps, PrintError>)
        ensures
            r is Ok <==> margins_consistent(
                page_width as int,
                page_height as int,
                print_table_width as int,
                print_table_height as int,
                offset_x as int,
                offset_y as int,
            ),
            r is Err ==> r->Err_0 == PrintError::InvalidInput,
            r is Ok ==> r->Ok_0 == (DeviceCaps {
                dpi_x,
                dpi_y,
                page_width,
                page_height,
                print_table_width,
                print_table_height,
                margin_top: offset_y,
                margin_left: offset_x,
                margin_right: remaining_margin(
                    page_width as int,
                    print_table_width as int,
                    offset_x as int,
                ) as i32,
                margin_bottom: remaining_margin(
                    page_height as int,
                    print_table_height as int,
                    offset_y as int,
                ) as i32,
            }),
            r is Ok ==> r->Ok_0.margin_right == r->Ok_0.page_width - r->Ok_0.print_table_width
                - r->Ok_0.margin_left,
            r is Ok ==> r->Ok_0.margin_bottom == r->Ok_0.page_height
                - r->Ok_0.print_table_height - r->Ok_0.margin_top,
    {
        let right: i64 = page_width as i64 - print_table_width as i64 - offset_x as i64;
        let bottom: i64 = page_height as i64 - print_table_height as i64 - offset_y as i64;
        if offset_x < 0 || offset_y < 0 || right < 0 || right > i32::MAX as i64 || bottom < 0
            || bottom > i32::MAX as i64 {
            return Err(PrintError::InvalidInput);
        }
        Ok(DeviceCaps {
            dpi_x,
            dpi_y,
            page_width,
            page_height,
            print_table_width,
            print_table_height,
            margin_top: offset_y,
            margin_left: offset_x,
            margin_right: right as i32,
            margin_bottom: bottom as i32,
        })
    }
}

} // verus!
