use vstd::prelude::*;

verus! {

/// Quick pen colors.
#[derive(Debug, Clone, Copy, PartialEq, Eq, Structural)]
pub enum InkColor {
    Red,
    Yellow,
    Blue,
    Green,
    Black,
    White,
}

/// The non-premultiplied RGBA value of each pen color.
pub open spec fn color_rgba(color: InkColor) -> [u8; 4] {
    match color {
        InkColor::Red => [220u8, 38u8, 38u8, 255u8],
        InkColor::Yellow => [250u8, 204u8, 21u8, 255u8],
        InkColor::Blue => [37u8, 99u8, 235u8, 255u8],
        InkColor::Green => [22u8, 163u8, 74u8, 255u8],
        InkColor::Black => [17u8, 24u8, 39u8, 255u8],
        InkColor::White => [255u8, 255u8, 255u8, 255u8],
    }
}

impl InkColor {
    /// Returns the non-premultiplied RGBA color shared by the renderer and the toolbar.
    pub fn rgba(self) -> (rgba: [u8; 4])
        ensures
            rgba == color_rgba(self),
    {
        match self {
            InkColor::Red => [220, 38, 38, 255],
            InkColor::Yellow => [250, 204, 21, 255],
            InkColor::Blue => [37, 99, 235, 255],
            InkColor::Green => [22, 163, 74, 255],
            InkColor::Black => [17, 24, 39, 255],
            InkColor::White => [255, 255, 255, 255],
        }
    }

    /// The product's default pen color, red.
    pub fn default_color() -> (color: InkColor)
        ensures
            color is Red,
    {
        InkColor::Red
    }
}

/// The fixed pen width steps.
#[derive(Debug, Clone, Copy, PartialEq, Eq, Structural)]
pub enum PenWidth {
    Px4,
    Px6,
    Px8,
    Px16,
}

/// The width of each pen step in physical pixels.
pub open spec fn pen_width_pixels(width: PenWidth) -> u32 {
    match width {
        PenWidth::Px4 => 4,
        PenWidth::Px6 => 6,
        PenWidth::Px8 => 8,
        PenWidth::Px16 => 16,
    }
}

impl PenWidth {
    /// The width of this step in whole physical pixels.
    pub fn pixel_count(self) -> (pixels: u32)
        ensures
            pixels == pen_width_pixels(self),
    {
        match self {
            PenWidth::Px4 => 4,
            PenWidth::Px6 => 6,
            PenWidth::Px8 => 8,
            PenWidth::Px16 => 16,
        }
    }

    /// The product's default pen width, the thinnest step.
    pub fn default_width() -> (width: PenWidth)
        ensures
            width is Px4,
    {
        PenWidth::Px4
    }
}

/// The fixed region eraser diameters.
#[derive(Debug, Clone, Copy, PartialEq, Eq, Structural)]
pub enum EraserSize {
    Px24,
    Px48,
    Px72,
}

/// The diameter of each eraser step in physical pixels.
pub open spec fn eraser_pixels(size: EraserSize) -> u32 {
    match size {
        EraserSize::Px24 => 24,
        EraserSize::Px48 => 48,
        EraserSize::Px72 => 72,
    }
}

impl EraserSize {
    /// The diameter of this step in whole physical pixels.
    pub fn pixel_count(self) -> (pixels: u32)
        ensures
            pixels == eraser_pixels(self),
    {
        match self {
            EraserSize::Px24 => 24,
            EraserSize::Px48 => 48,
            EraserSize::Px72 => 72,
        }
    }

    /// The product's default eraser size, 48 px.
    pub fn default_size() -> (size: EraserSize)
        ensures
            size is Px48,
    {
        EraserSize::Px48
    }
}

/// The selected ink tool.
#[derive(Debug, Clone, Copy, PartialEq, Eq, Structural)]
pub enum InkTool {
    Pen,
    RegionEraser,
}

impl InkTool {
    /// The default tool, the pen.
    pub fn default_tool() -> (tool: InkTool)
        ensures
            tool is Pen,
    {
        InkTool::Pen
    }
}

/// A document-wide, strictly increasing identifier of an ink operation.
#[derive(Debug, Clone, Copy, PartialEq, Eq, Hash, Structural)]
pub struct OperationId(u64);

impl OperationId {
    /// The raw value.
    pub closed spec fn value(self) -> u64 {
        self.0
    }

    /// Makes the identifier that a document's allocator handed out.
    pub fn new(value: u64) -> (id: OperationId)
        ensures
            id.value() == value,
    {
        OperationId(value)
    }

    /// Identifiers with the same value are the same identifier.
    pub proof fn lemma_value_identifies(a: OperationId, b: OperationId)
        ensures
            a.value() == b.value() ==> a == b,
    {
    }

    /// The identifier's raw integer, for diagnostics and performance records.
    pub fn get(self) -> (value: u64)
        ensures
            value == self.value(),
    {
        self.0
    }
}

} // verus!
