//! Images and menus that a window class refers to.

use vstd::prelude::*;
use crate::ll::types::{HANDLE, NULL_HANDLE, UINT};
use crate::wchar::{c_u16, ToCU16Str};

verus! {

/// A value that stands for a platform object and can give its handle.
pub trait ToHandle {
    /// The handle that `to_handle` yields.
    spec fn handle(&self) -> HANDLE;

    fn to_handle(&self) -> (h: HANDLE)
        ensures
            h == self.handle(),
    ;
}

/// An absent object has the null handle.
impl<T: ToHandle> ToHandle for Option<T> {
    open spec fn handle(&self) -> HANDLE {
        match self {
            None => NULL_HANDLE,
            Some(s) => s.handle(),
        }
    }

    fn to_handle(&self) -> (h: HANDLE) {
        match self {
            None => NULL_HANDLE,
            Some(s) => s.to_handle(),
        }
    }
}

#[allow(non_camel_case_types)]
#[derive(Clone, Copy, Debug, PartialEq, Eq, Structural)]
pub enum ImageType {
    IMAGE_BITMAP,
    IMAGE_ICON,
    IMAGE_CURSOR,
}

impl ImageType {
    /// The platform's number for this kind of image.
    pub open spec fn spec_code(self) -> UINT {
        match self {
            ImageType::IMAGE_BITMAP => 0,
            ImageType::IMAGE_ICON => 1,
            ImageType::IMAGE_CURSOR => 2,
        }
    }

    #[verifier::when_used_as_spec(spec_code)]
    pub fn code(self) -> (r: UINT)
        ensures
            r == self.spec_code(),
    {
        match self {
            ImageType::IMAGE_BITMAP => 0,
            ImageType::IMAGE_ICON => 1,
            ImageType::IMAGE_CURSOR => 2,
        }
    }
}

/// A loaded bitmap, icon or cursor, by its handle.
#[derive(Clone, Copy, Debug, PartialEq, Eq, Structural)]
pub struct Image {
    pub image: HANDLE,
}

impl Image {
    /// The image that loading handed back: none where the platform answered
    /// with the null handle.
    pub fn loaded(image: HANDLE) -> (r: Option<Image>)
        ensures
            image == NULL_HANDLE ==> r is None,
            image != NULL_HANDLE ==> r == Some((Image { image })),
    {
        if image == NULL_HANDLE {
            None
        } else {
            Some(Image { image })
        }
    }
}

impl ToHandle for Image {
    open spec fn handle(&self) -> HANDLE {
        self.image
    }

    fn to_handle(&self) -> (h: HANDLE) {
        self.image
    }
}

/// How a window class names its menu: by a resource name or by a resource
/// number.
pub enum MenuResource {
    MenuName(String),
    MenuId(isize),
}

/// What the platform takes in the place of a menu name: a zero-terminated
/// wide string, or a resource number in the guise of an address.
pub enum MenuPointer {
    Name(Vec<u16>),
    Id(isize),
}

impl MenuResource {
    /// Whether `p` is what the platform is handed for this menu.
    pub open spec fn points_to(&self, p: MenuPointer) -> bool {
        match (*self, p) {
            (MenuResource::MenuName(s), MenuPointer::Name(u)) => u@ == c_u16(s@),
            (MenuResource::MenuId(id), MenuPointer::Id(n)) => n == id,
            _ => false,
        }
    }

    /// What the platform is handed for this menu.
    pub fn menu_pointer(&self) -> (p: MenuPointer)
        ensures
            self.points_to(p),
    {
        match self {
            MenuResource::MenuName(s) => MenuPointer::Name(s.to_c_u16()),
            MenuResource::MenuId(id) => MenuPointer::Id(*id),
        }
    }

    /// Runs `f` on what the platform is handed for this menu, and returns
    /// what `f` returns.
    pub fn with_menu_p<T, F: FnOnce(MenuPointer) -> T>(&self, f: F) -> (r: T)
        requires
            forall|p: MenuPointer| self.points_to(p) ==> f.requires((p,)),
        ensures
            exists|p: MenuPointer| self.points_to(p) && f.ensures((p,), r),
    {
        let p = self.menu_pointer();
        f(p)
    }

    /// No menu: the resource number zero.
    pub fn null() -> (r: MenuResource)
        ensures
            r == MenuResource::MenuId(0),
    {
        MenuResource::MenuId(0)
    }
}

} // verus!
