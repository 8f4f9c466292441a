//! Newtype wrappers carrying physical units. They prevent accidental mixing
//! of, e.g., Tesla and Gauss, and give the schema structs self-documenting
//! fields. Each wraps a value of any numeric representation `V`; arithmetic
//! and display go through the representation's own operations, with the
//! unit symbol appended when displayed.

use vstd::prelude::*;
use vstd::std_specs::ops::{AddSpec, DivSpec, MulSpec, SubSpec};
use vstd::string::to_string_from_display_ensures;

verus! {

/// Magnetic field in Tesla.
#[derive(Debug, Clone, Copy, PartialEq, PartialOrd)]
pub struct Tesla<V>(pub V);

impl<V> Tesla<V> {
    /// Wraps a raw value.
    pub fn new(v: V) -> (t: Self)
        ensures
            t.0 == v,
    {
        Tesla(v)
    }
}

impl<V: Copy> Tesla<V> {
    /// The raw value.
    pub fn value(&self) -> (v: V)
        ensures
            v == self.0,
    {
        self.0
    }
}

impl<V: core::fmt::Display> Tesla<V> {
    /// The value as its representation displays it, followed by `T`.
    pub fn to_string(&self) -> (s: String)
        ensures
            exists|d: String| #[trigger] to_string_from_display_ensures::<V>(&self.0, d) && s@ == d@ + "T"@,
    {
        let mut s: String = self.0.to_string();
        s.append("T");
        s
    }
}

impl<V> From<V> for Tesla<V> {
    fn from(v: V) -> Self {
        Tesla(v)
    }
}

impl<V> vstd::std_specs::convert::FromSpecImpl<V> for Tesla<V> {
    open spec fn obeys_from_spec() -> bool {
        true
    }

    open spec fn from_spec(v: V) -> Self {
        Tesla(v)
    }
}

impl<V: core::ops::Add<Output = V>> core::ops::Add for Tesla<V> {
    type Output = Self;

    fn add(self, o: Self) -> Self {
        Tesla(self.0.add(o.0))
    }
}

impl<V: core::ops::Add<Output = V>> vstd::std_specs::ops::AddSpecImpl for Tesla<V> {
    open spec fn obeys_add_spec() -> bool {
        <V as AddSpec>::obeys_add_spec()
    }

    open spec fn add_req(self, rhs: Self) -> bool {
        self.0.add_req(rhs.0)
    }

    open spec fn add_spec(self, rhs: Self) -> Self {
        Tesla(self.0.add_spec(rhs.0))
    }
}

impl<V: core::ops::Sub<Output = V>> core::ops::Sub for Tesla<V> {
    type Output = Self;

    fn sub(self, o: Self) -> Self {
        Tesla(self.0.sub(o.0))
    }
}

impl<V: core::ops::Sub<Output = V>> vstd::std_specs::ops::SubSpecImpl for Tesla<V> {
    open spec fn obeys_sub_spec() -> bool {
        <V as SubSpec>::obeys_sub_spec()
    }

    open spec fn sub_req(self, rhs: Self) -> bool {
        self.0.sub_req(rhs.0)
    }

    open spec fn sub_spec(self, rhs: Self) -> Self {
        Tesla(self.0.sub_spec(rhs.0))
    }
}

impl<V: core::ops::Mul<Output = V>> core::ops::Mul<V> for Tesla<V> {
    type Output = Self;

    fn mul(self, s: V) -> Self {
        Tesla(self.0.mul(s))
    }
}

impl<V: core::ops::Mul<Output = V>> vstd::std_specs::ops::MulSpecImpl<V> for Tesla<V> {
    open spec fn obeys_mul_spec() -> bool {
        <V as MulSpec>::obeys_mul_spec()
    }

    open spec fn mul_req(self, rhs: V) -> bool {
        self.0.mul_req(rhs)
    }

    open spec fn mul_spec(self, rhs: V) -> Self {
        Tesla(self.0.mul_spec(rhs))
    }
}

impl<V: core::ops::Div<Output = V>> core::ops::Div<V> for Tesla<V> {
    type Output = Self;

    fn div(self, s: V) -> Self {
        Tesla(self.0.div(s))
    }
}

impl<V: core::ops::Div<Output = V>> vstd::std_specs::ops::DivSpecImpl<V> for Tesla<V> {
    open spec fn obeys_div_spec() -> bool {
        <V as DivSpec>::obeys_div_spec()
    }

    open spec fn div_req(self, rhs: V) -> bool {
        self.0.div_req(rhs)
    }

    open spec fn div_spec(self, rhs: V) -> Self {
        Tesla(self.0.div_spec(rhs))
    }
}

/// Line-integrated density in 1e19 m^-2 (typical interferometer unit).
#[derive(Debug, Clone, Copy, PartialEq, PartialOrd)]
pub struct LineDensity<V>(pub V);

impl<V> LineDensity<V> {
    /// Wraps a raw value.
    pub fn new(v: V) -> (t: Self)
        ensures
            t.0 == v,
    {
        LineDensity(v)
    }
}

impl<V: Copy> LineDensity<V> {
    /// The raw value.
    pub fn value(&self) -> (v: V)
        ensures
            v == self.0,
    {
        self.0
    }
}

impl<V: core::fmt::Display> LineDensity<V> {
    /// The value as its representation displays it, followed by `e19 m^-2`.
    pub fn to_string(&self) -> (s: String)
        ensures
            exists|d: String| #[trigger] to_string_from_display_ensures::<V>(&self.0, d) && s@ == d@ + "e19 m^-2"@,
    {
        let mut s: String = self.0.to_string();
        s.append("e19 m^-2");
        s
    }
}

impl<V> From<V> for LineDensity<V> {
    fn from(v: V) -> Self {
        LineDensity(v)
    }
}

impl<V> vstd::std_specs::convert::FromSpecImpl<V> for LineDensity<V> {
    open spec fn obeys_from_spec() -> bool {
        true
    }

    open spec fn from_spec(v: V) -> Self {
        LineDensity(v)
    }
}

impl<V: core::ops::Add<Output = V>> core::ops::Add for LineDensity<V> {
    type Output = Self;

    fn add(self, o: Self) -> Self {
        LineDensity(self.0.add(o.0))
    }
}

impl<V: core::ops::Add<Output = V>> vstd::std_specs::ops::AddSpecImpl for LineDensity<V> {
    open spec fn obeys_add_spec() -> bool {
        <V as AddSpec>::obeys_add_spec()
    }

    open spec fn add_req(self, rhs: Self) -> bool {
        self.0.add_req(rhs.0)
    }

    open spec fn add_spec(self, rhs: Self) -> Self {
        LineDensity(self.0.add_spec(rhs.0))
    }
}

impl<V: core::ops::Sub<Output = V>> core::ops::Sub for LineDensity<V> {
    type Output = Self;

    fn sub(self, o: Self) -> Self {
        LineDensity(self.0.sub(o.0))
    }
}

impl<V: core::ops::Sub<Output = V>> vstd::std_specs::ops::SubSpecImpl for LineDensity<V> {
    open spec fn obeys_sub_spec() -> bool {
        <V as SubSpec>::obeys_sub_spec()
    }

    open spec fn sub_req(self, rhs: Self) -> bool {
        self.0.sub_req(rhs.0)
    }

    open spec fn sub_spec(self, rhs: Self) -> Self {
        LineDensity(self.0.sub_spec(rhs.0))
    }
}

impl<V: core::ops::Mul<Output = V>> core::ops::Mul<V> for LineDensity<V> {
    type Output = Self;

    fn mul(self, s: V) -> Self {
        LineDensity(self.0.mul(s))
    }
}

impl<V: core::ops::Mul<Output = V>> vstd::std_specs::ops::MulSpecImpl<V> for LineDensity<V> {
    open spec fn obeys_mul_spec() -> bool {
        <V as MulSpec>::obeys_mul_spec()
    }

    open spec fn mul_req(self, rhs: V) -> bool {
        self.0.mul_req(rhs)
    }

    open spec fn mul_spec(self, rhs: V) -> Self {
        LineDensity(self.0.mul_spec(rhs))
    }
}

impl<V: core::ops::Div<Output = V>> core::ops::Div<V> for LineDensity<V> {
    type Output = Self;

    fn div(self, s: V) -> Self {
        LineDensity(self.0.div(s))
    }
}

impl<V: core::ops::Div<Output = V>> vstd::std_specs::ops::DivSpecImpl<V> for LineDensity<V> {
    open spec fn obeys_div_spec() -> bool {
        <V as DivSpec>::obeys_div_spec()
    }

    open spec fn div_req(self, rhs: V) -> bool {
        self.0.div_req(rhs)
    }

    open spec fn div_spec(self, rhs: V) -> Self {
        LineDensity(self.0.div_spec(rhs))
    }
}

/// Electron temperature in keV.
#[derive(Debug, Clone, Copy, PartialEq, PartialOrd)]
pub struct KiloElectronVolt<V>(pub V);

impl<V> KiloElectronVolt<V> {
    /// Wraps a raw value.
    pub fn new(v: V) -> (t: Self)
        ensures
            t.0 == v,
    {
        KiloElectronVolt(v)
    }
}

impl<V: Copy> KiloElectronVolt<V> {
    /// The raw value.
    pub fn value(&self) -> (v: V)
        ensures
            v == self.0,
    {
        self.0
    }
}

impl<V: core::fmt::Display> KiloElectronVolt<V> {
    /// The value as its representation displays it, followed by `keV`.
    pub fn to_string(&self) -> (s: String)
        ensures
            exists|d: String| #[trigger] to_string_from_display_ensures::<V>(&self.0, d) && s@ == d@ + "keV"@,
    {
        let mut s: String = self.0.to_string();
        s.append("keV");
        s
    }
}

impl<V> From<V> for KiloElectronVolt<V> {
    fn from(v: V) -> Self {
        KiloElectronVolt(v)
    }
}

impl<V> vstd::std_specs::convert::FromSpecImpl<V> for KiloElectronVolt<V> {
    open spec fn obeys_from_spec() -> bool {
        true
    }

    open spec fn from_spec(v: V) -> Self {
        KiloElectronVolt(v)
    }
}

impl<V: core::ops::Add<Output = V>> core::ops::Add for KiloElectronVolt<V> {
    type Output = Self;

    fn add(self, o: Self) -> Self {
        KiloElectronVolt(self.0.add(o.0))
    }
}

impl<V: core::ops::Add<Output = V>> vstd::std_specs::ops::AddSpecImpl for KiloElectronVolt<V> {
    open spec fn obeys_add_spec() -> bool {
        <V as AddSpec>::obeys_add_spec()
    }

    open spec fn add_req(self, rhs: Self) -> bool {
        self.0.add_req(rhs.0)
    }

    open spec fn add_spec(self, rhs: Self) -> Self {
        KiloElectronVolt(self.0.add_spec(rhs.0))
    }
}

impl<V: core::ops::Sub<Output = V>> core::ops::Sub for KiloElectronVolt<V> {
    type Output = Self;

    fn sub(self, o: Self) -> Self {
        KiloElectronVolt(self.0.sub(o.0))
    }
}

impl<V: core::ops::Sub<Output = V>> vstd::std_specs::ops::SubSpecImpl for KiloElectronVolt<V> {
    open spec fn obeys_sub_spec() -> bool {
        <V as SubSpec>::obeys_sub_spec()
    }

    open spec fn sub_req(self, rhs: Self) -> bool {
        self.0.sub_req(rhs.0)
    }

    open spec fn sub_spec(self, rhs: Self) -> Self {
        KiloElectronVolt(self.0.sub_spec(rhs.0))
    }
}

impl<V: core::ops::Mul<Output = V>> core::ops::Mul<V> for KiloElectronVolt<V> {
    type Output = Self;

    fn mul(self, s: V) -> Self {
        KiloElectronVolt(self.0.mul(s))
    }
}

impl<V: core::ops::Mul<Output = V>> vstd::std_specs::ops::MulSpecImpl<V> for KiloElectronVolt<V> {
    open spec fn obeys_mul_spec() -> bool {
        <V as MulSpec>::obeys_mul_spec()
    }

    open spec fn mul_req(self, rhs: V) -> bool {
        self.0.mul_req(rhs)
    }

    open spec fn mul_spec(self, rhs: V) -> Self {
        KiloElectronVolt(self.0.mul_spec(rhs))
    }
}

impl<V: core::ops::Div<Output = V>> core::ops::Div<V> for KiloElectronVolt<V> {
    type Output = Self;

    fn div(self, s: V) -> Self {
        KiloElectronVolt(self.0.div(s))
    }
}

impl<V: core::ops::Div<Output = V>> vstd::std_specs::ops::DivSpecImpl<V> for KiloElectronVolt<V> {
    open spec fn obeys_div_spec() -> bool {
        <V as DivSpec>::obeys_div_spec()
    }

    open spec fn div_req(self, rhs: V) -> bool {
        self.0.div_req(rhs)
    }

    open spec fn div_spec(self, rhs: V) -> Self {
        KiloElectronVolt(self.0.div_spec(rhs))
    }
}

/// Temperature in eV (base).
#[derive(Debug, Clone, Copy, PartialEq, PartialOrd)]
pub struct ElectronVolt<V>(pub V);

impl<V> ElectronVolt<V> {
    /// Wraps a raw value.
    pub fn new(v: V) -> (t: Self)
        ensures
            t.0 == v,
    {
        ElectronVolt(v)
    }
}

impl<V: Copy> ElectronVolt<V> {
    /// The raw value.
    pub fn value(&self) -> (v: V)
        ensures
            v == self.0,
    {
        self.0
    }
}

impl<V: core::fmt::Display> ElectronVolt<V> {
    /// The value as its representation displays it, followed by `eV`.
    pub fn to_string(&self) -> (s: String)
        ensures
            exists|d: String| #[trigger] to_string_from_display_ensures::<V>(&self.0, d) && s@ == d@ + "eV"@,
    {
        let mut s: String = self.0.to_string();
        s.append("eV");
        s
    }
}

impl<V> From<V> for ElectronVolt<V> {
    fn from(v: V) -> Self {
        ElectronVolt(v)
    }
}

impl<V> vstd::std_specs::convert::FromSpecImpl<V> for ElectronVolt<V> {
    open spec fn obeys_from_spec() -> bool {
        true
    }

    open spec fn from_spec(v: V) -> Self {
        ElectronVolt(v)
    }
}

impl<V: core::ops::Add<Output = V>> core::ops::Add for ElectronVolt<V> {
    type Output = Self;

    fn add(self, o: Self) -> Self {
        ElectronVolt(self.0.add(o.0))
    }
}

impl<V: core::ops::Add<Output = V>> vstd::std_specs::ops::AddSpecImpl for ElectronVolt<V> {
    open spec fn obeys_add_spec() -> bool {
        <V as AddSpec>::obeys_add_spec()
    }

    open spec fn add_req(self, rhs: Self) -> bool {
        self.0.add_req(rhs.0)
    }

    open spec fn add_spec(self, rhs: Self) -> Self {
        ElectronVolt(self.0.add_spec(rhs.0))
    }
}

impl<V: core::ops::Sub<Output = V>> core::ops::Sub for ElectronVolt<V> {
    type Output = Self;

    fn sub(self, o: Self) -> Self {
        ElectronVolt(self.0.sub(o.0))
    }
}

impl<V: core::ops::Sub<Output = V>> vstd::std_specs::ops::SubSpecImpl for ElectronVolt<V> {
    open spec fn obeys_sub_spec() -> bool {
        <V as SubSpec>::obeys_sub_spec()
    }

    open spec fn sub_req(self, rhs: Self) -> bool {
        self.0.sub_req(rhs.0)
    }

    open spec fn sub_spec(self, rhs: Self) -> Self {
        ElectronVolt(self.0.sub_spec(rhs.0))
    }
}

impl<V: core::ops::Mul<Output = V>> core::ops::Mul<V> for ElectronVolt<V> {
    type Output = Self;

    fn mul(self, s: V) -> Self {
        ElectronVolt(self.0.mul(s))
    }
}

impl<V: core::ops::Mul<Output = V>> vstd::std_specs::ops::MulSpecImpl<V> for ElectronVolt<V> {
    open spec fn obeys_mul_spec() -> bool {
        <V as MulSpec>::obeys_mul_spec()
    }

    open spec fn mul_req(self, rhs: V) -> bool {
        self.0.mul_req(rhs)
    }

    open spec fn mul_spec(self, rhs: V) -> Self {
        ElectronVolt(self.0.mul_spec(rhs))
    }
}

impl<V: core::ops::Div<Output = V>> core::ops::Div<V> for ElectronVolt<V> {
    type Output = Self;

    fn div(self, s: V) -> Self {
        ElectronVolt(self.0.div(s))
    }
}

impl<V: core::ops::Div<Output = V>> vstd::std_specs::ops::DivSpecImpl<V> for ElectronVolt<V> {
    open spec fn obeys_div_spec() -> bool {
        <V as DivSpec>::obeys_div_spec()
    }

    open spec fn div_req(self, rhs: V) -> bool {
        self.0.div_req(rhs)
    }

    open spec fn div_spec(self, rhs: V) -> Self {
        ElectronVolt(self.0.div_spec(rhs))
    }
}

/// Plasma current in Mega-Amps.
#[derive(Debug, Clone, Copy, PartialEq, PartialOrd)]
pub struct MegaAmps<V>(pub V);

impl<V> MegaAmps<V> {
    /// Wraps a raw value.
    pub fn new(v: V) -> (t: Self)
        ensures
            t.0 == v,
    {
        MegaAmps(v)
    }
}

impl<V: Copy> MegaAmps<V> {
    /// The raw value.
    pub fn value(&self) -> (v: V)
        ensures
            v == self.0,
    {
        self.0
    }
}

impl<V: core::fmt::Display> MegaAmps<V> {
    /// The value as its representation displays it, followed by `MA`.
    pub fn to_string(&self) -> (s: String)
        ensures
            exists|d: String| #[trigger] to_string_from_display_ensures::<V>(&self.0, d) && s@ == d@ + "MA"@,
    {
        let mut s: String = self.0.to_string();
        s.append("MA");
        s
    }
}

impl<V> From<V> for MegaAmps<V> {
    fn from(v: V) -> Self {
        MegaAmps(v)
    }
}

impl<V> vstd::std_specs::convert::FromSpecImpl<V> for MegaAmps<V> {
    open spec fn obeys_from_spec() -> bool {
        true
    }

    open spec fn from_spec(v: V) -> Self {
        MegaAmps(v)
    }
}

impl<V: core::ops::Add<Output = V>> core::ops::Add for MegaAmps<V> {
    type Output = Self;

    fn add(self, o: Self) -> Self {
        MegaAmps(self.0.add(o.0))
    }
}

impl<V: core::ops::Add<Output = V>> vstd::std_specs::ops::AddSpecImpl for MegaAmps<V> {
    open spec fn obeys_add_spec() -> bool {
        <V as AddSpec>::obeys_add_spec()
    }

    open spec fn add_req(self, rhs: Self) -> bool {
        self.0.add_req(rhs.0)
    }

    open spec fn add_spec(self, rhs: Self) -> Self {
        MegaAmps(self.0.add_spec(rhs.0))
    }
}

impl<V: core::ops::Sub<Output = V>> core::ops::Sub for MegaAmps<V> {
    type Output = Self;

    fn sub(self, o: Self) -> Self {
        MegaAmps(self.0.sub(o.0))
    }
}

impl<V: core::ops::Sub<Output = V>> vstd::std_specs::ops::SubSpecImpl for MegaAmps<V> {
    open spec fn obeys_sub_spec() -> bool {
        <V as SubSpec>::obeys_sub_spec()
    }

    open spec fn sub_req(self, rhs: Self) -> bool {
        self.0.sub_req(rhs.0)
    }

    open spec fn sub_spec(self, rhs: Self) -> Self {
        MegaAmps(self.0.sub_spec(rhs.0))
    }
}

impl<V: core::ops::Mul<Output = V>> core::ops::Mul<V> for MegaAmps<V> {
    type Output = Self;

    fn mul(self, s: V) -> Self {
        MegaAmps(self.0.mul(s))
    }
}

impl<V: core::ops::Mul<Output = V>> vstd::std_specs::ops::MulSpecImpl<V> for MegaAmps<V> {
    open spec fn obeys_mul_spec() -> bool {
        <V as MulSpec>::obeys_mul_spec()
    }

    open spec fn mul_req(self, rhs: V) -> bool {
        self.0.mul_req(rhs)
    }

    open spec fn mul_spec(self, rhs: V) -> Self {
        MegaAmps(self.0.mul_spec(rhs))
    }
}

impl<V: core::ops::Div<Output = V>> core::ops::Div<V> for MegaAmps<V> {
    type Output = Self;

    fn div(self, s: V) -> Self {
        MegaAmps(self.0.div(s))
    }
}

impl<V: core::ops::Div<Output = V>> vstd::std_specs::ops::DivSpecImpl<V> for MegaAmps<V> {
    open spec fn obeys_div_spec() -> bool {
        <V as DivSpec>::obeys_div_spec()
    }

    open spec fn div_req(self, rhs: V) -> bool {
        self.0.div_req(rhs)
    }

    open spec fn div_spec(self, rhs: V) -> Self {
        MegaAmps(self.0.div_spec(rhs))
    }
}

/// Time in seconds.
#[derive(Debug, Clone, Copy, PartialEq, PartialOrd)]
pub struct Seconds<V>(pub V);

impl<V> Seconds<V> {
    /// Wraps a raw value.
    pub fn new(v: V) -> (t: Self)
        ensures
            t.0 == v,
    {
        Seconds(v)
    }
}

impl<V: Copy> Seconds<V> {
    /// The raw value.
    pub fn value(&self) -> (v: V)
        ensures
            v == self.0,
    {
        self.0
    }
}

impl<V: core::fmt::Display> Seconds<V> {
    /// The value as its representation displays it, followed by `s`.
    pub fn to_string(&self) -> (s: String)
        ensures
            exists|d: String| #[trigger] to_string_from_display_ensures::<V>(&self.0, d) && s@ == d@ + "s"@,
    {
        let mut s: String = self.0.to_string();
        s.append("s");
        s
    }
}

impl<V> From<V> for Seconds<V> {
    fn from(v: V) -> Self {
        Seconds(v)
    }
}

impl<V> vstd::std_specs::convert::FromSpecImpl<V> for Seconds<V> {
    open spec fn obeys_from_spec() -> bool {
        true
    }

    open spec fn from_spec(v: V) -> Self {
        Seconds(v)
    }
}

impl<V: core::ops::Add<Output = V>> core::ops::Add for Seconds<V> {
    type Output = Self;

    fn add(self, o: Self) -> Self {
        Seconds(self.0.add(o.0))
    }
}

impl<V: core::ops::Add<Output = V>> vstd::std_specs::ops::AddSpecImpl for Seconds<V> {
    open spec fn obeys_add_spec() -> bool {
        <V as AddSpec>::obeys_add_spec()
    }

    open spec fn add_req(self, rhs: Self) -> bool {
        self.0.add_req(rhs.0)
    }

    open spec fn add_spec(self, rhs: Self) -> Self {
        Seconds(self.0.add_spec(rhs.0))
    }
}

impl<V: core::ops::Sub<Output = V>> core::ops::Sub for Seconds<V> {
    type Output = Self;

    fn sub(self, o: Self) -> Self {
        Seconds(self.0.sub(o.0))
    }
}

impl<V: core::ops::Sub<Output = V>> vstd::std_specs::ops::SubSpecImpl for Seconds<V> {
    open spec fn obeys_sub_spec() -> bool {
        <V as SubSpec>::obeys_sub_spec()
    }

    open spec fn sub_req(self, rhs: Self) -> bool {
        self.0.sub_req(rhs.0)
    }

    open spec fn sub_spec(self, rhs: Self) -> Self {
        Seconds(self.0.sub_spec(rhs.0))
    }
}

impl<V: core::ops::Mul<Output = V>> core::ops::Mul<V> for Seconds<V> {
    type Output = Self;

    fn mul(self, s: V) -> Self {
        Seconds(self.0.mul(s))
    }
}

impl<V: core::ops::Mul<Output = V>> vstd::std_specs::ops::MulSpecImpl<V> for Seconds<V> {
    open spec fn obeys_mul_spec() -> bool {
        <V as MulSpec>::obeys_mul_spec()
    }

    open spec fn mul_req(self, rhs: V) -> bool {
        self.0.mul_req(rhs)
    }

    open spec fn mul_spec(self, rhs: V) -> Self {
        Seconds(self.0.mul_spec(rhs))
    }
}

impl<V: core::ops::Div<Output = V>> core::ops::Div<V> for Seconds<V> {
    type Output = Self;

    fn div(self, s: V) -> Self {
        Seconds(self.0.div(s))
    }
}

impl<V: core::ops::Div<Output = V>> vstd::std_specs::ops::DivSpecImpl<V> for Seconds<V> {
    open spec fn obeys_div_spec() -> bool {
        <V as DivSpec>::obeys_div_spec()
    }

    open spec fn div_req(self, rhs: V) -> bool {
        self.0.div_req(rhs)
    }

    open spec fn div_spec(self, rhs: V) -> Self {
        Seconds(self.0.div_spec(rhs))
    }
}

/// Toroidal angle in radians.
#[derive(Debug, Clone, Copy, PartialEq, PartialOrd)]
pub struct Radians<V>(pub V);

impl<V> Radians<V> {
    /// Wraps a raw value.
    pub fn new(v: V) -> (t: Self)
        ensures
            t.0 == v,
    {
        Radians(v)
    }
}

impl<V: Copy> Radians<V> {
    /// The raw value.
    pub fn value(&self) -> (v: V)
        ensures
            v == self.0,
    {
        self.0
    }
}

impl<V: core::fmt::Display> Radians<V> {
    /// The value as its representation displays it, followed by `rad`.
    pub fn to_string(&self) -> (s: String)
        ensures
            exists|d: String| #[trigger] to_string_from_display_ensures::<V>(&self.0, d) && s@ == d@ + "rad"@,
    {
        let mut s: String = self.0.to_string();
        s.append("rad");
        s
    }
}

impl<V> From<V> for Radians<V> {
    fn from(v: V) -> Self {
        Radians(v)
    }
}

impl<V> vstd::std_specs::convert::FromSpecImpl<V> for Radians<V> {
    open spec fn obeys_from_spec() -> bool {
        true
    }

    open spec fn from_spec(v: V) -> Self {
        Radians(v)
    }
}

impl<V: core::ops::Add<Output = V>> core::ops::Add for Radians<V> {
    type Output = Self;

    fn add(self, o: Self) -> Self {
        Radians(self.0.add(o.0))
    }
}

impl<V: core::ops::Add<Output = V>> vstd::std_specs::ops::AddSpecImpl for Radians<V> {
    open spec fn obeys_add_spec() -> bool {
        <V as AddSpec>::obeys_add_spec()
    }

    open spec fn add_req(self, rhs: Self) -> bool {
        self.0.add_req(rhs.0)
    }

    open spec fn add_spec(self, rhs: Self) -> Self {
        Radians(self.0.add_spec(rhs.0))
    }
}

impl<V: core::ops::Sub<Output = V>> core::ops::Sub for Radians<V> {
    type Output = Self;

    fn sub(self, o: Self) -> Self {
        Radians(self.0.sub(o.0))
    }
}

impl<V: core::ops::Sub<Output = V>> vstd::std_specs::ops::SubSpecImpl for Radians<V> {
    open spec fn obeys_sub_spec() -> bool {
        <V as SubSpec>::obeys_sub_spec()
    }

    open spec fn sub_req(self, rhs: Self) -> bool {
        self.0.sub_req(rhs.0)
    }

    open spec fn sub_spec(self, rhs: Self) -> Self {
        Radians(self.0.sub_spec(rhs.0))
    }
}

impl<V: core::ops::Mul<Output = V>> core::ops::Mul<V> for Radians<V> {
    type Output = Self;

    fn mul(self, s: V) -> Self {
        Radians(self.0.mul(s))
    }
}

impl<V: core::ops::Mul<Output = V>> vstd::std_specs::ops::MulSpecImpl<V> for Radians<V> {
    open spec fn obeys_mul_spec() -> bool {
        <V as MulSpec>::obeys_mul_spec()
    }

    open spec fn mul_req(self, rhs: V) -> bool {
        self.0.mul_req(rhs)
    }

    open spec fn mul_spec(self, rhs: V) -> Self {
        Radians(self.0.mul_spec(rhs))
    }
}

impl<V: core::ops::Div<Output = V>> core::ops::Div<V> for Radians<V> {
    type Output = Self;

    fn div(self, s: V) -> Self {
        Radians(self.0.div(s))
    }
}

impl<V: core::ops::Div<Output = V>> vstd::std_specs::ops::DivSpecImpl<V> for Radians<V> {
    open spec fn obeys_div_spec() -> bool {
        <V as DivSpec>::obeys_div_spec()
    }

    open spec fn div_req(self, rhs: V) -> bool {
        self.0.div_req(rhs)
    }

    open spec fn div_spec(self, rhs: V) -> Self {
        Radians(self.0.div_spec(rhs))
    }
}

/// Minor radius in meters.
#[derive(Debug, Clone, Copy, PartialEq, PartialOrd)]
pub struct Meters<V>(pub V);

impl<V> Meters<V> {
    /// Wraps a raw value.
    pub fn new(v: V) -> (t: Self)
        ensures
            t.0 == v,
    {
        Meters(v)
    }
}

impl<V: Copy> Meters<V> {
    /// The raw value.
    pub fn value(&self) -> (v: V)
        ensures
            v == self.0,
    {
        self.0
    }
}

impl<V: core::fmt::Display> Meters<V> {
    /// The value as its representation displays it, followed by `m`.
    pub fn to_string(&self) -> (s: String)
        ensures
            exists|d: String| #[trigger] to_string_from_display_ensures::<V>(&self.0, d) && s@ == d@ + "m"@,
    {
        let mut s: String = self.0.to_string();
        s.append("m");
        s
    }
}

impl<V> From<V> for Meters<V> {
    fn from(v: V) -> Self {
        Meters(v)
    }
}

impl<V> vstd::std_specs::convert::FromSpecImpl<V> for Meters<V> {
    open spec fn obeys_from_spec() -> bool {
        true
    }

    open spec fn from_spec(v: V) -> Self {
        Meters(v)
    }
}

impl<V: core::ops::Add<Output = V>> core::ops::Add for Meters<V> {
    type Output = Self;

    fn add(self, o: Self) -> Self {
        Meters(self.0.add(o.0))
    }
}

impl<V: core::ops::Add<Output = V>> vstd::std_specs::ops::AddSpecImpl for Meters<V> {
    open spec fn obeys_add_spec() -> bool {
        <V as AddSpec>::obeys_add_spec()
    }

    open spec fn add_req(self, rhs: Self) -> bool {
        self.0.add_req(rhs.0)
    }

    open spec fn add_spec(self, rhs: Self) -> Self {
        Meters(self.0.add_spec(rhs.0))
    }
}

impl<V: core::ops::Sub<Output = V>> core::ops::Sub for Meters<V> {
    type Output = Self;

    fn sub(self, o: Self) -> Self {
        Meters(self.0.sub(o.0))
    }
}

impl<V: core::ops::Sub<Output = V>> vstd::std_specs::ops::SubSpecImpl for Meters<V> {
    open spec fn obeys_sub_spec() -> bool {
        <V as SubSpec>::obeys_sub_spec()
    }

    open spec fn sub_req(self, rhs: Self) -> bool {
        self.0.sub_req(rhs.0)
    }

    open spec fn sub_spec(self, rhs: Self) -> Self {
        Meters(self.0.sub_spec(rhs.0))
    }
}

impl<V: core::ops::Mul<Output = V>> core::ops::Mul<V> for Meters<V> {
    type Output = Self;

    fn mul(self, s: V) -> Self {
        Meters(self.0.mul(s))
    }
}

impl<V: core::ops::Mul<Output = V>> vstd::std_specs::ops::MulSpecImpl<V> for Meters<V> {
    open spec fn obeys_mul_spec() -> bool {
        <V as MulSpec>::obeys_mul_spec()
    }

    open spec fn mul_req(self, rhs: V) -> bool {
        self.0.mul_req(rhs)
    }

    open spec fn mul_spec(self, rhs: V) -> Self {
        Meters(self.0.mul_spec(rhs))
    }
}

impl<V: core::ops::Div<Output = V>> core::ops::Div<V> for Meters<V> {
    type Output = Self;

    fn div(self, s: V) -> Self {
        Meters(self.0.div(s))
    }
}

impl<V: core::ops::Div<Output = V>> vstd::std_specs::ops::DivSpecImpl<V> for Meters<V> {
    open spec fn obeys_div_spec() -> bool {
        <V as DivSpec>::obeys_div_spec()
    }

    open spec fn div_req(self, rhs: V) -> bool {
        self.0.div_req(rhs)
    }

    open spec fn div_spec(self, rhs: V) -> Self {
        Meters(self.0.div_spec(rhs))
    }
}

/// Major radius in meters.
#[derive(Debug, Clone, Copy, PartialEq, PartialOrd)]
pub struct MajorRadius<V>(pub V);

impl<V> MajorRadius<V> {
    /// Wraps a raw value.
    pub fn new(v: V) -> (t: Self)
        ensures
            t.0 == v,
    {
        MajorRadius(v)
    }
}

impl<V: Copy> MajorRadius<V> {
    /// The raw value.
    pub fn value(&self) -> (v: V)
        ensures
            v == self.0,
    {
        self.0
    }
}

impl<V: core::fmt::Display> MajorRadius<V> {
    /// The value as its representation displays it, followed by `m`.
    pub fn to_string(&self) -> (s: String)
        ensures
            exists|d: String| #[trigger] to_string_from_display_ensures::<V>(&self.0, d) && s@ == d@ + "m"@,
    {
        let mut s: String = self.0.to_string();
        s.append("m");
        s
    }
}

impl<V> From<V> for MajorRadius<V> {
    fn from(v: V) -> Self {
        MajorRadius(v)
    }
}

impl<V> vstd::std_specs::convert::FromSpecImpl<V> for MajorRadius<V> {
    open spec fn obeys_from_spec() -> bool {
        true
    }

    open spec fn from_spec(v: V) -> Self {
        MajorRadius(v)
    }
}

impl<V: core::ops::Add<Output = V>> core::ops::Add for MajorRadius<V> {
    type Output = Self;

    fn add(self, o: Self) -> Self {
        MajorRadius(self.0.add(o.0))
    }
}

impl<V: core::ops::Add<Output = V>> vstd::std_specs::ops::AddSpecImpl for MajorRadius<V> {
    open spec fn obeys_add_spec() -> bool {
        <V as AddSpec>::obeys_add_spec()
    }

    open spec fn add_req(self, rhs: Self) -> bool {
        self.0.add_req(rhs.0)
    }

    open spec fn add_spec(self, rhs: Self) -> Self {
        MajorRadius(self.0.add_spec(rhs.0))
    }
}

impl<V: core::ops::Sub<Output = V>> core::ops::Sub for MajorRadius<V> {
    type Output = Self;

    fn sub(self, o: Self) -> Self {
        MajorRadius(self.0.sub(o.0))
    }
}

impl<V: core::ops::Sub<Output = V>> vstd::std_specs::ops::SubSpecImpl for MajorRadius<V> {
    open spec fn obeys_sub_spec() -> bool {
        <V as SubSpec>::obeys_sub_spec()
    }

    open spec fn sub_req(self, rhs: Self) -> bool {
        self.0.sub_req(rhs.0)
    }

    open spec fn sub_spec(self, rhs: Self) -> Self {
        MajorRadius(self.0.sub_spec(rhs.0))
    }
}

impl<V: core::ops::Mul<Output = V>> core::ops::Mul<V> for MajorRadius<V> {
    type Output = Self;

    fn mul(self, s: V) -> Self {
        MajorRadius(self.0.mul(s))
    }
}

impl<V: core::ops::Mul<Output = V>> vstd::std_specs::ops::MulSpecImpl<V> for MajorRadius<V> {
    open spec fn obeys_mul_spec() -> bool {
        <V as MulSpec>::obeys_mul_spec()
    }

    open spec fn mul_req(self, rhs: V) -> bool {
        self.0.mul_req(rhs)
    }

    open spec fn mul_spec(self, rhs: V) -> Self {
        MajorRadius(self.0.mul_spec(rhs))
    }
}

impl<V: core::ops::Div<Output = V>> core::ops::Div<V> for MajorRadius<V> {
    type Output = Self;

    fn div(self, s: V) -> Self {
        MajorRadius(self.0.div(s))
    }
}

impl<V: core::ops::Div<Output = V>> vstd::std_specs::ops::DivSpecImpl<V> for MajorRadius<V> {
    open spec fn obeys_div_spec() -> bool {
        <V as DivSpec>::obeys_div_spec()
    }

    open spec fn div_req(self, rhs: V) -> bool {
        self.0.div_req(rhs)
    }

    open spec fn div_spec(self, rhs: V) -> Self {
        MajorRadius(self.0.div_spec(rhs))
    }
}

} // verus!
