use cortex_m::peripheral::{cpuid, dcb, dwt, fpb, fpu, itm, mpu, nvic, scb, syst, tpiu};

#[test]
fn cpuid() {
    assert_eq!(cpuid::address(cpuid::Register::Base, 0), 0xE000_ED00);
    assert_eq!(cpuid::address(cpuid::Register::Pfr, 0), 0xE000_ED40);
    assert_eq!(cpuid::address(cpuid::Register::Dfr, 0), 0xE000_ED48);
    assert_eq!(cpuid::address(cpuid::Register::Afr, 0), 0xE000_ED4C);
    assert_eq!(cpuid::address(cpuid::Register::Mmfr, 0), 0xE000_ED50);
    assert_eq!(cpuid::address(cpuid::Register::Isar, 0), 0xE000_ED60);
    assert_eq!(cpuid::address(cpuid::Register::Clidr, 0), 0xE000_ED78);
    assert_eq!(cpuid::address(cpuid::Register::Ctr, 0), 0xE000_ED7C);
    assert_eq!(cpuid::address(cpuid::Register::Ccsidr, 0), 0xE000_ED80);
    assert_eq!(cpuid::address(cpuid::Register::Csselr, 0), 0xE000_ED84);
}

#[test]
fn dcb() {
    assert_eq!(dcb::address(dcb::Register::Dhcsr, 0), 0xE000_EDF0);
    assert_eq!(dcb::address(dcb::Register::Dcrsr, 0), 0xE000_EDF4);
    assert_eq!(dcb::address(dcb::Register::Dcrdr, 0), 0xE000_EDF8);
    assert_eq!(dcb::address(dcb::Register::Demcr, 0), 0xE000_EDFC);
}

#[test]
fn dwt() {
    assert_eq!(dwt::address(dwt::Register::Ctrl, 0), 0xE000_1000);
    assert_eq!(dwt::address(dwt::Register::Cyccnt, 0), 0xE000_1004);
    assert_eq!(dwt::address(dwt::Register::Cpicnt, 0), 0xE000_1008);
    assert_eq!(dwt::address(dwt::Register::Exccnt, 0), 0xE000_100C);
    assert_eq!(dwt::address(dwt::Register::Sleepcnt, 0), 0xE000_1010);
    assert_eq!(dwt::address(dwt::Register::Lsucnt, 0), 0xE000_1014);
    assert_eq!(dwt::address(dwt::Register::Foldcnt, 0), 0xE000_1018);
    assert_eq!(dwt::address(dwt::Register::Pcsr, 0), 0xE000_101C);
    assert_eq!(dwt::address(dwt::Register::Comp, 0), 0xE000_1020);
    assert_eq!(dwt::address(dwt::Register::Mask, 0), 0xE000_1024);
    assert_eq!(dwt::address(dwt::Register::Function, 0), 0xE000_1028);
    assert_eq!(dwt::address(dwt::Register::Comp, 1), 0xE000_1030);
    assert_eq!(dwt::address(dwt::Register::Mask, 1), 0xE000_1034);
    assert_eq!(dwt::address(dwt::Register::Function, 1), 0xE000_1038);
    assert_eq!(dwt::address(dwt::Register::Lar, 0), 0xE000_1FB0);
    assert_eq!(dwt::address(dwt::Register::Lsr, 0), 0xE000_1FB4);
}

#[test]
fn fpb() {
    assert_eq!(fpb::address(fpb::Register::Ctrl, 0), 0xE000_2000);
    assert_eq!(fpb::address(fpb::Register::Remap, 0), 0xE000_2004);
    assert_eq!(fpb::address(fpb::Register::Comp, 0), 0xE000_2008);
    assert_eq!(fpb::address(fpb::Register::Comp, 1), 0xE000_200C);
    assert_eq!(fpb::address(fpb::Register::Lar, 0), 0xE000_2FB0);
    assert_eq!(fpb::address(fpb::Register::Lsr, 0), 0xE000_2FB4);
}

#[test]
fn fpu() {
    assert_eq!(fpu::address(fpu::Register::Fpccr, 0), 0xE000_EF34);
    assert_eq!(fpu::address(fpu::Register::Fpcar, 0), 0xE000_EF38);
    assert_eq!(fpu::address(fpu::Register::Fpdscr, 0), 0xE000_EF3C);
    assert_eq!(fpu::address(fpu::Register::Mvfr, 0), 0xE000_EF40);
    assert_eq!(fpu::address(fpu::Register::Mvfr, 1), 0xE000_EF44);
    assert_eq!(fpu::address(fpu::Register::Mvfr, 2), 0xE000_EF48);
}

#[test]
fn itm() {
    assert_eq!(itm::address(itm::Register::Stim, 0), 0xE000_0000);
    assert_eq!(itm::address(itm::Register::Ter, 0), 0xE000_0E00);
    assert_eq!(itm::address(itm::Register::Tpr, 0), 0xE000_0E40);
    assert_eq!(itm::address(itm::Register::Tcr, 0), 0xE000_0E80);
    assert_eq!(itm::address(itm::Register::Lar, 0), 0xE000_0FB0);
    assert_eq!(itm::address(itm::Register::Lsr, 0), 0xE000_0FB4);
}

#[test]
fn mpu() {
    assert_eq!(mpu::address(mpu::Register::Type, 0), 0xE000ED90);
    assert_eq!(mpu::address(mpu::Register::Ctrl, 0), 0xE000ED94);
    assert_eq!(mpu::address(mpu::Register::Rnr, 0), 0xE000ED98);
    assert_eq!(mpu::address(mpu::Register::Rbar, 0), 0xE000ED9C);
    assert_eq!(mpu::address(mpu::Register::Rasr, 0), 0xE000EDA0);
    assert_eq!(mpu::address(mpu::Register::RbarA1, 0), 0xE000EDA4);
    assert_eq!(mpu::address(mpu::Register::RsarA1, 0), 0xE000EDA8);
    assert_eq!(mpu::address(mpu::Register::RbarA2, 0), 0xE000EDAC);
    assert_eq!(mpu::address(mpu::Register::RsarA2, 0), 0xE000EDB0);
    assert_eq!(mpu::address(mpu::Register::RbarA3, 0), 0xE000EDB4);
    assert_eq!(mpu::address(mpu::Register::RsarA3, 0), 0xE000EDB8);
}

#[test]
fn nvic() {
    assert_eq!(nvic::address(nvic::Register::Iser, 0), 0xE000E100);
    assert_eq!(nvic::address(nvic::Register::Iser, 15), 0xE000E13C);
    assert_eq!(nvic::address(nvic::Register::Icer, 0), 0xE000E180);
    assert_eq!(nvic::address(nvic::Register::Icer, 7), 0xE000E19C);
    assert_eq!(nvic::address(nvic::Register::Icer, 15), 0xE000E1BC);
    assert_eq!(nvic::address(nvic::Register::Ispr, 0), 0xE000E200);
    assert_eq!(nvic::address(nvic::Register::Ispr, 15), 0xE000E23C);
    assert_eq!(nvic::address(nvic::Register::Icpr, 0), 0xE000E280);
    assert_eq!(nvic::address(nvic::Register::Icpr, 15), 0xE000E2BC);
    assert_eq!(nvic::address(nvic::Register::Iabr, 0), 0xE000E300);
    assert_eq!(nvic::address(nvic::Register::Iabr, 15), 0xE000E33C);
    assert_eq!(nvic::address(nvic::Register::Ipr, 0), 0xE000E400);
    assert_eq!(nvic::address(nvic::Register::Ipr, 59), 0xE000E4EC);
}

#[test]
fn scb() {
    assert_eq!(scb::address(scb::Register::Icsr, 0), 0xE000_ED04);
    assert_eq!(scb::address(scb::Register::Vtor, 0), 0xE000_ED08);
    assert_eq!(scb::address(scb::Register::Aircr, 0), 0xE000_ED0C);
    assert_eq!(scb::address(scb::Register::Scr, 0), 0xE000_ED10);
    assert_eq!(scb::address(scb::Register::Ccr, 0), 0xE000_ED14);
    assert_eq!(scb::address(scb::Register::Shpr, 0), 0xE000_ED18);
    assert_eq!(scb::address(scb::Register::Shcsr, 0), 0xE000_ED24);
    assert_eq!(scb::address(scb::Register::Cfsr, 0), 0xE000_ED28);
    assert_eq!(scb::address(scb::Register::Hfsr, 0), 0xE000_ED2C);
    assert_eq!(scb::address(scb::Register::Dfsr, 0), 0xE000_ED30);
    assert_eq!(scb::address(scb::Register::Mmfar, 0), 0xE000_ED34);
    assert_eq!(scb::address(scb::Register::Bfar, 0), 0xE000_ED38);
    assert_eq!(scb::address(scb::Register::Afsr, 0), 0xE000_ED3C);
    assert_eq!(scb::address(scb::Register::Cpacr, 0), 0xE000_ED88);
}

#[test]
fn syst() {
    assert_eq!(syst::address(syst::Register::Csr, 0), 0xE000_E010);
    assert_eq!(syst::address(syst::Register::Rvr, 0), 0xE000_E014);
    assert_eq!(syst::address(syst::Register::Cvr, 0), 0xE000_E018);
    assert_eq!(syst::address(syst::Register::Calib, 0), 0xE000_E01C);
}

#[test]
fn tpiu() {
    assert_eq!(tpiu::address(tpiu::Register::Sspsr, 0), 0xE004_0000);
    assert_eq!(tpiu::address(tpiu::Register::Cspsr, 0), 0xE004_0004);
    assert_eq!(tpiu::address(tpiu::Register::Acpr, 0), 0xE004_0010);
    assert_eq!(tpiu::address(tpiu::Register::Sppr, 0), 0xE004_00F0);
    assert_eq!(tpiu::address(tpiu::Register::Lar, 0), 0xE004_0FB0);
    assert_eq!(tpiu::address(tpiu::Register::Lsr, 0), 0xE004_0FB4);
    assert_eq!(tpiu::address(tpiu::Register::Type, 0), 0xE004_0FC8);
}
