//! Bilingual skill catalog, skill validation and the discrete parts of the
//! match score between two users.
use vstd::prelude::*;
use crate::models::user::Skill;
use crate::text::{lemma_filter_idempotent, lowercase, str_eq, to_lowercase};

verus! {

// ── Data types ───────────────────────────────────────────────────────────────

/// One skill of the catalog, with its English and Chinese names.
pub struct SkillEntry {
    pub name: &'static str,
    pub name_zh: &'static str,
}

/// A category of the catalog: its key, labels and skills.
pub struct SkillCategory {
    pub key: &'static str,
    pub label: &'static str,
    pub label_zh: &'static str,
    pub skills: Vec<SkillEntry>,
}

/// The characters of a catalog entry.
pub struct EntryView {
    pub name: Seq<char>,
    pub name_zh: Seq<char>,
}

/// The characters of a catalog category.
pub struct CategoryView {
    pub key: Seq<char>,
    pub label: Seq<char>,
    pub label_zh: Seq<char>,
    pub skills: Seq<EntryView>,
}

impl View for SkillEntry {
    type V = EntryView;

    open spec fn view(&self) -> EntryView {
        EntryView { name: self.name@, name_zh: self.name_zh@ }
    }
}

impl View for SkillCategory {
    type V = CategoryView;

    open spec fn view(&self) -> CategoryView {
        CategoryView {
            key: self.key@,
            label: self.label@,
            label_zh: self.label_zh@,
            skills: self.skills@.map_values(|e: SkillEntry| e@),
        }
    }
}

/// The catalog: twelve categories, in display order.
pub open spec fn catalog() -> Seq<CategoryView> {
    seq![
        CategoryView {
            key: "frontend"@,
            label: "Frontend"@,
            label_zh: "\u{524d}\u{7aef}\u{958b}\u{767c}"@,
            skills: seq![
                EntryView { name: "React"@, name_zh: "React"@ },
                EntryView { name: "Vue"@, name_zh: "Vue"@ },
                EntryView { name: "TypeScript"@, name_zh: "TypeScript"@ },
                EntryView { name: "Tailwind"@, name_zh: "Tailwind"@ },
                EntryView { name: "Next.js"@, name_zh: "Next.js"@ },
                EntryView { name: "Angular"@, name_zh: "Angular"@ },
                EntryView { name: "Svelte"@, name_zh: "Svelte"@ },
                EntryView { name: "HTML/CSS"@, name_zh: "HTML/CSS"@ },
                EntryView { name: "JavaScript"@, name_zh: "JavaScript"@ },
                EntryView { name: "Sass/SCSS"@, name_zh: "Sass/SCSS"@ },
                EntryView { name: "Webpack"@, name_zh: "Webpack"@ },
                EntryView { name: "Vite"@, name_zh: "Vite"@ }
            ],
        },
        CategoryView {
            key: "backend"@,
            label: "Backend"@,
            label_zh: "\u{5f8c}\u{7aef}\u{958b}\u{767c}"@,
            skills: seq![
                EntryView { name: "Node.js"@, name_zh: "Node.js"@ },
                EntryView { name: "Django"@, name_zh: "Django"@ },
                EntryView { name: "Rust"@, name_zh: "Rust"@ },
                EntryView { name: ".NET"@, name_zh: ".NET"@ },
                EntryView { name: "Spring Boot"@, name_zh: "Spring Boot"@ },
                EntryView { name: "Go"@, name_zh: "Go"@ },
                EntryView { name: "Express"@, name_zh: "Express"@ },
                EntryView { name: "FastAPI"@, name_zh: "FastAPI"@ },
                EntryView { name: "Ruby on Rails"@, name_zh: "Ruby on Rails"@ },
                EntryView { name: "PHP"@, name_zh: "PHP"@ },
                EntryView { name: "GraphQL"@, name_zh: "GraphQL"@ },
                EntryView { name: "REST API"@, name_zh: "REST API"@ }
            ],
        },
        CategoryView {
            key: "mobile"@,
            label: "Mobile"@,
            label_zh: "\u{884c}\u{52d5}\u{958b}\u{767c}"@,
            skills: seq![
                EntryView { name: "iOS (Swift)"@, name_zh: "iOS (Swift)"@ },
                EntryView { name: "Android (Kotlin)"@, name_zh: "Android (Kotlin)"@ },
                EntryView { name: "Flutter"@, name_zh: "Flutter"@ },
                EntryView { name: "React Native"@, name_zh: "React Native"@ },
                EntryView { name: "Xamarin"@, name_zh: "Xamarin"@ },
                EntryView { name: "SwiftUI"@, name_zh: "SwiftUI"@ },
                EntryView { name: "Jetpack Compose"@, name_zh: "Jetpack Compose"@ }
            ],
        },
        CategoryView {
            key: "ai_ml"@,
            label: "AI / ML"@,
            label_zh: "\u{4eba}\u{5de5}\u{667a}\u{6167} / \u{6a5f}\u{5668}\u{5b78}\u{7fd2}"@,
            skills: seq![
                EntryView { name: "PyTorch"@, name_zh: "PyTorch"@ },
                EntryView { name: "TensorFlow"@, name_zh: "TensorFlow"@ },
                EntryView { name: "LangChain"@, name_zh: "LangChain"@ },
                EntryView { name: "RAG"@, name_zh: "RAG"@ },
                EntryView { name: "Computer Vision"@, name_zh: "Computer Vision"@ },
                EntryView { name: "NLP"@, name_zh: "NLP"@ },
                EntryView { name: "Scikit-learn"@, name_zh: "Scikit-learn"@ },
                EntryView { name: "OpenAI API"@, name_zh: "OpenAI API"@ },
                EntryView { name: "Hugging Face"@, name_zh: "Hugging Face"@ },
                EntryView { name: "MLOps"@, name_zh: "MLOps"@ }
            ],
        },
        CategoryView {
            key: "data"@,
            label: "Data"@,
            label_zh: "\u{6578}\u{64da}\u{5de5}\u{7a0b}"@,
            skills: seq![
                EntryView { name: "SQL"@, name_zh: "SQL"@ },
                EntryView { name: "BigQuery"@, name_zh: "BigQuery"@ },
                EntryView { name: "dbt"@, name_zh: "dbt"@ },
                EntryView { name: "Tableau"@, name_zh: "Tableau"@ },
                EntryView { name: "Pandas"@, name_zh: "Pandas"@ },
                EntryView { name: "Spark"@, name_zh: "Spark"@ },
                EntryView { name: "PostgreSQL"@, name_zh: "PostgreSQL"@ },
                EntryView { name: "MongoDB"@, name_zh: "MongoDB"@ },
                EntryView { name: "Redis"@, name_zh: "Redis"@ },
                EntryView { name: "Elasticsearch"@, name_zh: "Elasticsearch"@ },
                EntryView { name: "Data Modeling"@, name_zh: "Data Modeling"@ }
            ],
        },
        CategoryView {
            key: "design"@,
            label: "Design"@,
            label_zh: "\u{8a2d}\u{8a08}"@,
            skills: seq![
                EntryView { name: "Figma"@, name_zh: "Figma"@ },
                EntryView { name: "UI/UX"@, name_zh: "UI/UX"@ },
                EntryView { name: "Branding"@, name_zh: "Branding"@ },
                EntryView { name: "Prototyping"@, name_zh: "Prototyping"@ },
                EntryView { name: "Illustration"@, name_zh: "Illustration"@ },
                EntryView { name: "Adobe XD"@, name_zh: "Adobe XD"@ },
                EntryView { name: "Sketch"@, name_zh: "Sketch"@ },
                EntryView { name: "Design Systems"@, name_zh: "Design Systems"@ },
                EntryView { name: "User Research"@, name_zh: "User Research"@ }
            ],
        },
        CategoryView {
            key: "product"@,
            label: "Product"@,
            label_zh: "\u{7522}\u{54c1}\u{7ba1}\u{7406}"@,
            skills: seq![
                EntryView { name: "Product Management"@, name_zh: "Product Management"@ },
                EntryView { name: "OKRs"@, name_zh: "OKRs"@ },
                EntryView { name: "A/B Testing"@, name_zh: "A/B Testing"@ },
                EntryView { name: "User Research"@, name_zh: "User Research"@ },
                EntryView { name: "Roadmapping"@, name_zh: "Roadmapping"@ },
                EntryView { name: "Agile/Scrum"@, name_zh: "Agile/Scrum"@ },
                EntryView { name: "JIRA"@, name_zh: "JIRA"@ },
                EntryView { name: "Analytics"@, name_zh: "Analytics"@ }
            ],
        },
        CategoryView {
            key: "devops"@,
            label: "DevOps"@,
            label_zh: "DevOps \u{8207}\u{96f2}\u{7aef}"@,
            skills: seq![
                EntryView { name: "Docker"@, name_zh: "Docker"@ },
                EntryView { name: "AWS"@, name_zh: "AWS"@ },
                EntryView { name: "GitHub Actions"@, name_zh: "GitHub Actions"@ },
                EntryView { name: "CI/CD"@, name_zh: "CI/CD"@ },
                EntryView { name: "Kubernetes"@, name_zh: "Kubernetes"@ },
                EntryView { name: "Terraform"@, name_zh: "Terraform"@ },
                EntryView { name: "Linux"@, name_zh: "Linux"@ },
                EntryView { name: "Nginx"@, name_zh: "Nginx"@ },
                EntryView { name: "GCP"@, name_zh: "GCP"@ },
                EntryView { name: "Azure"@, name_zh: "Azure"@ }
            ],
        },
        CategoryView {
            key: "security"@,
            label: "Security"@,
            label_zh: "\u{8cc7}\u{8a0a}\u{5b89}\u{5168}"@,
            skills: seq![
                EntryView { name: "OAuth"@, name_zh: "OAuth"@ },
                EntryView { name: "JWT"@, name_zh: "JWT"@ },
                EntryView { name: "Web Security"@, name_zh: "Web Security"@ },
                EntryView { name: "Penetration Testing"@, name_zh: "Penetration Testing"@ },
                EntryView { name: "OWASP"@, name_zh: "OWASP"@ },
                EntryView { name: "Encryption"@, name_zh: "Encryption"@ },
                EntryView { name: "Network Security"@, name_zh: "Network Security"@ }
            ],
        },
        CategoryView {
            key: "game"@,
            label: "Game Dev"@,
            label_zh: "\u{904a}\u{6232}\u{958b}\u{767c}"@,
            skills: seq![
                EntryView { name: "Unity"@, name_zh: "Unity"@ },
                EntryView { name: "Unreal"@, name_zh: "Unreal"@ },
                EntryView { name: "Godot"@, name_zh: "Godot"@ },
                EntryView { name: "Game Design"@, name_zh: "Game Design"@ },
                EntryView { name: "3D Modeling"@, name_zh: "3D Modeling"@ },
                EntryView { name: "Blender"@, name_zh: "Blender"@ },
                EntryView { name: "Shader Programming"@, name_zh: "Shader Programming"@ }
            ],
        },
        CategoryView {
            key: "hardware"@,
            label: "Hardware"@,
            label_zh: "\u{786c}\u{9ad4}\u{8207}\u{5d4c}\u{5165}\u{5f0f}"@,
            skills: seq![
                EntryView { name: "Arduino"@, name_zh: "Arduino"@ },
                EntryView { name: "IoT"@, name_zh: "IoT"@ },
                EntryView { name: "Robotics"@, name_zh: "Robotics"@ },
                EntryView { name: "FPGA"@, name_zh: "FPGA"@ },
                EntryView { name: "Embedded C"@, name_zh: "Embedded C"@ },
                EntryView { name: "Raspberry Pi"@, name_zh: "Raspberry Pi"@ },
                EntryView { name: "PCB Design"@, name_zh: "PCB Design"@ }
            ],
        },
        CategoryView {
            key: "business"@,
            label: "Business"@,
            label_zh: "\u{5546}\u{696d}\u{8207}\u{8edf}\u{5be6}\u{529b}"@,
            skills: seq![
                EntryView { name: "Leadership"@, name_zh: "Leadership"@ },
                EntryView { name: "Marketing"@, name_zh: "Marketing"@ },
                EntryView { name: "Sales"@, name_zh: "Sales"@ },
                EntryView { name: "Public Speaking"@, name_zh: "Public Speaking"@ },
                EntryView { name: "Project Management"@, name_zh: "Project Management"@ },
                EntryView { name: "Technical Writing"@, name_zh: "Technical Writing"@ },
                EntryView { name: "Communication"@, name_zh: "Communication"@ }
            ],
        }
    ]
}

// ── Catalog data ─────────────────────────────────────────────────────────────

/// Builds the skill catalog.
pub fn skill_catalog() -> (cats: Vec<SkillCategory>)
    ensures
        cats@.map_values(|c: SkillCategory| c@) == catalog(),
{
    let mut cats: Vec<SkillCategory> = Vec::new();
    let c0 = SkillCategory {
        key: "frontend",
        label: "Frontend",
        label_zh: "\u{524d}\u{7aef}\u{958b}\u{767c}",
        skills: vec![
            SkillEntry { name: "React", name_zh: "React" },
            SkillEntry { name: "Vue", name_zh: "Vue" },
            SkillEntry { name: "TypeScript", name_zh: "TypeScript" },
            SkillEntry { name: "Tailwind", name_zh: "Tailwind" },
            SkillEntry { name: "Next.js", name_zh: "Next.js" },
            SkillEntry { name: "Angular", name_zh: "Angular" },
            SkillEntry { name: "Svelte", name_zh: "Svelte" },
            SkillEntry { name: "HTML/CSS", name_zh: "HTML/CSS" },
            SkillEntry { name: "JavaScript", name_zh: "JavaScript" },
            SkillEntry { name: "Sass/SCSS", name_zh: "Sass/SCSS" },
            SkillEntry { name: "Webpack", name_zh: "Webpack" },
            SkillEntry { name: "Vite", name_zh: "Vite" }
        ],};
    proof {
        assert(c0.skills@.map_values(|e: SkillEntry| e@) =~= catalog()[0].skills);
    }
    cats.push(c0);
    let c1 = SkillCategory {
        key: "backend",
        label: "Backend",
        label_zh: "\u{5f8c}\u{7aef}\u{958b}\u{767c}",
        skills: vec![
            SkillEntry { name: "Node.js", name_zh: "Node.js" },
            SkillEntry { name: "Django", name_zh: "Django" },
            SkillEntry { name: "Rust", name_zh: "Rust" },
            SkillEntry { name: ".NET", name_zh: ".NET" },
            SkillEntry { name: "Spring Boot", name_zh: "Spring Boot" },
            SkillEntry { name: "Go", name_zh: "Go" },
            SkillEntry { name: "Express", name_zh: "Express" },
            SkillEntry { name: "FastAPI", name_zh: "FastAPI" },
            SkillEntry { name: "Ruby on Rails", name_zh: "Ruby on Rails" },
            SkillEntry { name: "PHP", name_zh: "PHP" },
            SkillEntry { name: "GraphQL", name_zh: "GraphQL" },
            SkillEntry { name: "REST API", name_zh: "REST API" }
        ],};
    proof {
        assert(c1.skills@.map_values(|e: SkillEntry| e@) =~= catalog()[1].skills);
    }
    cats.push(c1);
    let c2 = SkillCategory {
        key: "mobile",
        label: "Mobile",
        label_zh: "\u{884c}\u{52d5}\u{958b}\u{767c}",
        skills: vec![
            SkillEntry { name: "iOS (Swift)", name_zh: "iOS (Swift)" },
            SkillEntry { name: "Android (Kotlin)", name_zh: "Android (Kotlin)" },
            SkillEntry { name: "Flutter", name_zh: "Flutter" },
            SkillEntry { name: "React Native", name_zh: "React Native" },
            SkillEntry { name: "Xamarin", name_zh: "Xamarin" },
            SkillEntry { name: "SwiftUI", name_zh: "SwiftUI" },
            SkillEntry { name: "Jetpack Compose", name_zh: "Jetpack Compose" }
        ],};
    proof {
        assert(c2.skills@.map_values(|e: SkillEntry| e@) =~= catalog()[2].skills);
    }
    cats.push(c2);
    let c3 = SkillCategory {
        key: "ai_ml",
        label: "AI / ML",
        label_zh: "\u{4eba}\u{5de5}\u{667a}\u{6167} / \u{6a5f}\u{5668}\u{5b78}\u{7fd2}",
        skills: vec![
            SkillEntry { name: "PyTorch", name_zh: "PyTorch" },
            SkillEntry { name: "TensorFlow", name_zh: "TensorFlow" },
            SkillEntry { name: "LangChain", name_zh: "LangChain" },
            SkillEntry { name: "RAG", name_zh: "RAG" },
            SkillEntry { name: "Computer Vision", name_zh: "Computer Vision" },
            SkillEntry { name: "NLP", name_zh: "NLP" },
            SkillEntry { name: "Scikit-learn", name_zh: "Scikit-learn" },
            SkillEntry { name: "OpenAI API", name_zh: "OpenAI API" },
            SkillEntry { name: "Hugging Face", name_zh: "Hugging Face" },
            SkillEntry { name: "MLOps", name_zh: "MLOps" }
        ],};
    proof {
        assert(c3.skills@.map_values(|e: SkillEntry| e@) =~= catalog()[3].skills);
    }
    cats.push(c3);
    let c4 = SkillCategory {
        key: "data",
        label: "Data",
        label_zh: "\u{6578}\u{64da}\u{5de5}\u{7a0b}",
        skills: vec![
            SkillEntry { name: "SQL", name_zh: "SQL" },
            SkillEntry { name: "BigQuery", name_zh: "BigQuery" },
            SkillEntry { name: "dbt", name_zh: "dbt" },
            SkillEntry { name: "Tableau", name_zh: "Tableau" },
            SkillEntry { name: "Pandas", name_zh: "Pandas" },
            SkillEntry { name: "Spark", name_zh: "Spark" },
            SkillEntry { name: "PostgreSQL", name_zh: "PostgreSQL" },
            SkillEntry { name: "MongoDB", name_zh: "MongoDB" },
            SkillEntry { name: "Redis", name_zh: "Redis" },
            SkillEntry { name: "Elasticsearch", name_zh: "Elasticsearch" },
            SkillEntry { name: "Data Modeling", name_zh: "Data Modeling" }
        ],};
    proof {
        assert(c4.skills@.map_values(|e: SkillEntry| e@) =~= catalog()[4].skills);
    }
    cats.push(c4);
    let c5 = SkillCategory {
        key: "design",
        label: "Design",
        label_zh: "\u{8a2d}\u{8a08}",
        skills: vec![
            SkillEntry { name: "Figma", name_zh: "Figma" },
            SkillEntry { name: "UI/UX", name_zh: "UI/UX" },
            SkillEntry { name: "Branding", name_zh: "Branding" },
            SkillEntry { name: "Prototyping", name_zh: "Prototyping" },
            SkillEntry { name: "Illustration", name_zh: "Illustration" },
            SkillEntry { name: "Adobe XD", name_zh: "Adobe XD" },
            SkillEntry { name: "Sketch", name_zh: "Sketch" },
            SkillEntry { name: "Design Systems", name_zh: "Design Systems" },
            SkillEntry { name: "User Research", name_zh: "User Research" }
        ],};
    proof {
        assert(c5.skills@.map_values(|e: SkillEntry| e@) =~= catalog()[5].skills);
    }
    cats.push(c5);
    let c6 = SkillCategory {
        key: "product",
        label: "Product",
        label_zh: "\u{7522}\u{54c1}\u{7ba1}\u{7406}",
        skills: vec![
            SkillEntry { name: "Product Management", name_zh: "Product Management" },
            SkillEntry { name: "OKRs", name_zh: "OKRs" },
            SkillEntry { name: "A/B Testing", name_zh: "A/B Testing" },
            SkillEntry { name: "User Research", name_zh: "User Research" },
            SkillEntry { name: "Roadmapping", name_zh: "Roadmapping" },
            SkillEntry { name: "Agile/Scrum", name_zh: "Agile/Scrum" },
            SkillEntry { name: "JIRA", name_zh: "JIRA" },
            SkillEntry { name: "Analytics", name_zh: "Analytics" }
        ],};
    proof {
        assert(c6.skills@.map_values(|e: SkillEntry| e@) =~= catalog()[6].skills);
    }
    cats.push(c6);
    let c7 = SkillCategory {
        key: "devops",
        label: "DevOps",
        label_zh: "DevOps \u{8207}\u{96f2}\u{7aef}",
        skills: vec![
            SkillEntry { name: "Docker", name_zh: "Docker" },
            SkillEntry { name: "AWS", name_zh: "AWS" },
            SkillEntry { name: "GitHub Actions", name_zh: "GitHub Actions" },
            SkillEntry { name: "CI/CD", name_zh: "CI/CD" },
            SkillEntry { name: "Kubernetes", name_zh: "Kubernetes" },
            SkillEntry { name: "Terraform", name_zh: "Terraform" },
            SkillEntry { name: "Linux", name_zh: "Linux" },
            SkillEntry { name: "Nginx", name_zh: "Nginx" },
            SkillEntry { name: "GCP", name_zh: "GCP" },
            SkillEntry { name: "Azure", name_zh: "Azure" }
        ],};
    proof {
        assert(c7.skills@.map_values(|e: SkillEntry| e@) =~= catalog()[7].skills);
    }
    cats.push(c7);
    let c8 = SkillCategory {
        key: "security",
        label: "Security",
        label_zh: "\u{8cc7}\u{8a0a}\u{5b89}\u{5168}",
        skills: vec![
            SkillEntry { name: "OAuth", name_zh: "OAuth" },
            SkillEntry { name: "JWT", name_zh: "JWT" },
            SkillEntry { name: "Web Security", name_zh: "Web Security" },
            SkillEntry { name: "Penetration Testing", name_zh: "Penetration Testing" },
            SkillEntry { name: "OWASP", name_zh: "OWASP" },
            SkillEntry { name: "Encryption", name_zh: "Encryption" },
            SkillEntry { name: "Network Security", name_zh: "Network Security" }
        ],};
    proof {
        assert(c8.skills@.map_values(|e: SkillEntry| e@) =~= catalog()[8].skills);
    }
    cats.push(c8);
    let c9 = SkillCategory {
        key: "game",
        label: "Game Dev",
        label_zh: "\u{904a}\u{6232}\u{958b}\u{767c}",
        skills: vec![
            SkillEntry { name: "Unity", name_zh: "Unity" },
            SkillEntry { name: "Unreal", name_zh: "Unreal" },
            SkillEntry { name: "Godot", name_zh: "Godot" },
            SkillEntry { name: "Game Design", name_zh: "Game Design" },
            SkillEntry { name: "3D Modeling", name_zh: "3D Modeling" },
            SkillEntry { name: "Blender", name_zh: "Blender" },
            SkillEntry { name: "Shader Programming", name_zh: "Shader Programming" }
        ],};
    proof {
        assert(c9.skills@.map_values(|e: SkillEntry| e@) =~= catalog()[9].skills);
    }
    cats.push(c9);
    let c10 = SkillCategory {
        key: "hardware",
        label: "Hardware",
        label_zh: "\u{786c}\u{9ad4}\u{8207}\u{5d4c}\u{5165}\u{5f0f}",
        skills: vec![
            SkillEntry { name: "Arduino", name_zh: "Arduino" },
            SkillEntry { name: "IoT", name_zh: "IoT" },
            SkillEntry { name: "Robotics", name_zh: "Robotics" },
            SkillEntry { name: "FPGA", name_zh: "FPGA" },
            SkillEntry { name: "Embedded C", name_zh: "Embedded C" },
            SkillEntry { name: "Raspberry Pi", name_zh: "Raspberry Pi" },
            SkillEntry { name: "PCB Design", name_zh: "PCB Design" }
        ],};
    proof {
        assert(c10.skills@.map_values(|e: SkillEntry| e@) =~= catalog()[10].skills);
    }
    cats.push(c10);
    let c11 = SkillCategory {
        key: "business",
        label: "Business",
        label_zh: "\u{5546}\u{696d}\u{8207}\u{8edf}\u{5be6}\u{529b}",
        skills: vec![
            SkillEntry { name: "Leadership", name_zh: "Leadership" },
            SkillEntry { name: "Marketing", name_zh: "Marketing" },
            SkillEntry { name: "Sales", name_zh: "Sales" },
            SkillEntry { name: "Public Speaking", name_zh: "Public Speaking" },
            SkillEntry { name: "Project Management", name_zh: "Project Management" },
            SkillEntry { name: "Technical Writing", name_zh: "Technical Writing" },
            SkillEntry { name: "Communication", name_zh: "Communication" }
        ],};
    proof {
        assert(c11.skills@.map_values(|e: SkillEntry| e@) =~= catalog()[11].skills);
    }
    cats.push(c11);
    proof {
        assert(cats@.map_values(|c: SkillCategory| c@) =~= catalog());
    }
    cats
}


// ── Lookup ───────────────────────────────────────────────────────────────────

/// Some skill of `cat` lower-cases to `l`.
pub open spec fn category_has(cat: CategoryView, l: Seq<char>) -> bool {
    exists|j: int| 0 <= j < cat.skills.len() && lowercase(cat.skills[j].name) == l
}

/// `name` names a skill of the catalog, ignoring case.
pub open spec fn is_known_skill(name: Seq<char>) -> bool {
    exists|i: int| 0 <= i < catalog().len() && category_has(catalog()[i], lowercase(name))
}

/// The key of the last category among `cats` that holds a skill lower-casing to `l`.
pub open spec fn last_category_with(cats: Seq<CategoryView>, l: Seq<char>) -> Option<Seq<char>>
    decreases cats.len(),
{
    if cats.len() == 0 {
        None
    } else if category_has(cats.last(), l) {
        Some(cats.last().key)
    } else {
        last_category_with(cats.drop_last(), l)
    }
}

/// The category key of a skill name, ignoring case. A name listed under
/// several categories belongs to the last of them.
pub open spec fn category_key_of(name: Seq<char>) -> Option<Seq<char>> {
    last_category_with(catalog(), lowercase(name))
}

proof fn lemma_last_category_found(cats: Seq<CategoryView>, l: Seq<char>, i: int)
    requires
        0 <= i < cats.len(),
        category_has(cats[i], l),
        forall|k: int| i < k < cats.len() ==> !category_has(cats[k], l),
    ensures
        last_category_with(cats, l) == Some(cats[i].key),
    decreases cats.len(),
{
    if i < cats.len() - 1 {
        assert(cats.drop_last()[i] == cats[i]);
        lemma_last_category_found(cats.drop_last(), l, i);
    }
}

proof fn lemma_last_category_none(cats: Seq<CategoryView>, l: Seq<char>)
    requires
        forall|k: int| 0 <= k < cats.len() ==> !category_has(cats[k], l),
    ensures
        last_category_with(cats, l) is None,
    decreases cats.len(),
{
    if cats.len() > 0 {
        assert forall|k: int| 0 <= k < cats.len() - 1 implies !category_has(cats.drop_last()[k], l) by {
            assert(cats.drop_last()[k] == cats[k]);
        }
        lemma_last_category_none(cats.drop_last(), l);
    }
}

/// Whether some skill of `cat` lower-cases to `l`.
fn category_contains(cat: &SkillCategory, l: &String) -> (r: bool)
    ensures
        r == category_has(cat@, l@),
{
    let n = cat.skills.len();
    let mut j: usize = 0;
    while j < n
        invariant
            n == cat.skills@.len(),
            j <= n,
            forall|k: int| 0 <= k < j ==> lowercase(#[trigger] cat@.skills[k].name) != l@,
        decreases n - j,
    {
        let lowered = to_lowercase(cat.skills[j].name);
        if lowered == *l {
            proof {
                assert(cat@.skills[j as int].name == cat.skills@[j as int].name@);
            }
            return true;
        }
        proof {
            assert(cat@.skills[j as int].name == cat.skills@[j as int].name@);
        }
        j = j + 1;
    }
    false
}

/// Returns `true` if `name` is a recognized skill (case-insensitive).
pub fn is_valid_skill(name: &str) -> (r: bool)
    ensures
        r == is_known_skill(name@),
{
    let l = to_lowercase(name);
    let cats = skill_catalog();
    let n = cats.len();
    let mut i: usize = 0;
    while i < n
        invariant
            n == cats@.len(),
            n == catalog().len(),
            cats@.map_values(|c: SkillCategory| c@) == catalog(),
            l@ == lowercase(name@),
            i <= n,
            forall|k: int| 0 <= k < i ==> !category_has(#[trigger] catalog()[k], l@),
        decreases n - i,
    {
        assert(cats@.map_values(|c: SkillCategory| c@)[i as int] == cats@[i as int]@);
        if category_contains(&cats[i], &l) {
            return true;
        }
        i = i + 1;
    }
    false
}

/// Returns the category key for a skill name (case-insensitive).
pub fn category_of(skill: &str) -> (r: Option<&'static str>)
    ensures
        match r {
            Some(k) => category_key_of(skill@) == Some(k@),
            None => category_key_of(skill@) is None,
        },
{
    let l = to_lowercase(skill);
    let cats = skill_catalog();
    let n = cats.len();
    let mut i: usize = n;
    while i > 0
        invariant
            n == cats@.len(),
            n == catalog().len(),
            cats@.map_values(|c: SkillCategory| c@) == catalog(),
            l@ == lowercase(skill@),
            i <= n,
            forall|k: int| i <= k < n ==> !category_has(#[trigger] catalog()[k], l@),
        decreases i,
    {
        assert(cats@.map_values(|c: SkillCategory| c@)[i - 1] == cats@[i - 1]@);
        if category_contains(&cats[i - 1], &l) {
            proof {
                lemma_last_category_found(catalog(), l@, i - 1);
            }
            return Some(cats[i - 1].key);
        }
        i = i - 1;
    }
    proof {
        lemma_last_category_none(catalog(), l@);
    }
    None
}

/// Filters a list of skill strings, keeping only recognized ones, in order.
pub fn filter_valid_skills(skills: &[String]) -> (r: Vec<String>)
    ensures
        r@ == skills@.filter(|s: String| is_known_skill(s@)),
{
    let mut r: Vec<String> = Vec::new();
    let n = skills.len();
    let mut i: usize = 0;
    while i < n
        invariant
            n == skills@.len(),
            i <= n,
            r@ == skills@.take(i as int).filter(|s: String| is_known_skill(s@)),
        decreases n - i,
    {
        proof {
            assert(skills@.take(i + 1) == skills@.take(i as int).push(skills@[i as int]));
            skills@.take(i as int).lemma_filter_push(skills@[i as int], |s: String| is_known_skill(s@));
        }
        if is_valid_skill(skills[i].as_str()) {
            r.push(skills[i].clone());
        }
        i = i + 1;
    }
    proof {
        assert(skills@.take(n as int) == skills@);
    }
    r
}

// ── Match scoring: the discrete parts ───────────────────────────────────────

/// The texts of a list of strings.
pub open spec fn texts(v: Seq<String>) -> Seq<Seq<char>> {
    v.map_values(|s: String| s@)
}

/// The distinct texts of a list.
pub open spec fn text_set(v: Seq<String>) -> Set<Seq<char>> {
    texts(v).to_set()
}

/// Whether some string of `v` has the text `t`.
fn contains_text(v: &Vec<String>, t: &str) -> (r: bool)
    ensures
        r == texts(v@).contains(t@),
{
    let n = v.len();
    let mut i: usize = 0;
    while i < n
        invariant
            n == v@.len(),
            i <= n,
            forall|k: int| 0 <= k < i ==> v@[k]@ != t@,
        decreases n - i,
    {
        if str_eq(v[i].as_str(), t) {
            proof {
                assert(texts(v@)[i as int] == t@);
            }
            return true;
        }
        i = i + 1;
    }
    proof {
        if texts(v@).contains(t@) {
            let k = choose|k: int| 0 <= k < texts(v@).len() && texts(v@)[k] == t@;
            assert(v@[k]@ == t@);
        }
    }
    false
}

/// Appending an element adds it to the set of elements.
proof fn lemma_push_to_set(s: Seq<Seq<char>>, x: Seq<char>)
    ensures
        s.push(x).to_set() == s.to_set().insert(x),
{
    assert forall|e: Seq<char>| s.push(x).to_set().contains(e) == s.to_set().insert(x).contains(e) by {
        if s.contains(e) {
            let k = choose|k: int| 0 <= k < s.len() && s[k] == e;
            assert(s.push(x)[k] == e);
        }
        if e == x {
            assert(s.push(x)[s.len() as int] == x);
        }
        if s.push(x).contains(e) {
            let k = choose|k: int| 0 <= k < s.push(x).len() && s.push(x)[k] == e;
            if k < s.len() {
                assert(s[k] == e);
            }
        }
    }
    assert(s.push(x).to_set() =~= s.to_set().insert(x));
}

/// The distinct strings of a list, first occurrences in order.
fn distinct_texts(v: &Vec<String>) -> (r: Vec<String>)
    ensures
        texts(r@).no_duplicates(),
        text_set(r@) == text_set(v@),
{
    let mut r: Vec<String> = Vec::new();
    let n = v.len();
    let mut i: usize = 0;
    while i < n
        invariant
            n == v@.len(),
            i <= n,
            texts(r@).no_duplicates(),
            texts(r@).to_set() == texts(v@.take(i as int)).to_set(),
        decreases n - i,
    {
        let ghost before = r@;
        proof {
            assert(texts(v@.take(i + 1)) =~= texts(v@.take(i as int)).push(v@[i as int]@));
        }
        proof {
            lemma_push_to_set(texts(v@.take(i as int)), v@[i as int]@);
        }
        if !contains_text(&r, v[i].as_str()) {
            r.push(v[i].clone());
            proof {
                assert(texts(r@) =~= texts(before).push(v@[i as int]@));
                lemma_push_to_set(texts(before), v@[i as int]@);
                assert(texts(r@).to_set() =~= texts(v@.take(i + 1)).to_set());
            }
        } else {
            proof {
                assert(texts(before).to_set().contains(v@[i as int]@));
                assert(texts(r@).to_set() =~= texts(v@.take(i + 1)).to_set());
            }
        }
        i = i + 1;
    }
    proof {
        assert(v@.take(n as int) =~= v@);
    }
    r
}

/// How many distinct texts two lists share, and how many they hold together.
pub open spec fn overlap_of(a: Seq<String>, b: Seq<String>) -> (nat, nat) {
    (text_set(a).intersect(text_set(b)).len(), text_set(a).union(text_set(b)).len())
}

/// The sizes of the intersection and of the union of the distinct texts of
/// two lists (the skill-tag sets of two users, or the skills of a project and
/// of a user).
pub fn overlap_counts(a: &Vec<String>, b: &Vec<String>) -> (r: (usize, usize))
    requires
        a@.len() + b@.len() <= usize::MAX,
    ensures
        r.0 == overlap_of(a@, b@).0,
        r.1 == overlap_of(a@, b@).1,
{
    broadcast use vstd::seq_lib::seq_to_set_is_finite;
    let da = distinct_texts(a);
    let db = distinct_texts(b);
    let ghost sa = text_set(a@);
    let ghost sb = text_set(b@);
    let na = da.len();
    let mut inter: usize = 0;
    let ghost mut kept: Seq<Seq<char>> = Seq::empty();
    let mut i: usize = 0;
    while i < na
        invariant
            na == da@.len(),
            i <= na,
            texts(da@).no_duplicates(),
            text_set(da@) == sa,
            text_set(db@) == sb,
            inter == kept.len(),
            inter <= i,
            kept.no_duplicates(),
            kept.to_set() == texts(da@.take(i as int)).to_set().intersect(sb),
        decreases na - i,
    {
        let x = &da[i];
        proof {
            assert(texts(da@.take(i + 1)) =~= texts(da@.take(i as int)).push(x@));
            assert(!texts(da@.take(i as int)).contains(x@)) by {
                if texts(da@.take(i as int)).contains(x@) {
                    let k = choose|k: int| 0 <= k < i && texts(da@.take(i as int))[k] == x@;
                    assert(texts(da@)[k] == texts(da@)[i as int]);
                }
            }
        }
        proof {
            lemma_push_to_set(texts(da@.take(i as int)), x@);
        }
        if contains_text(&db, x.as_str()) {
            proof {
                assert(!kept.contains(x@)) by {
                    if kept.contains(x@) {
                        assert(kept.to_set().contains(x@));
                    }
                }
                lemma_push_to_set(kept, x@);
                kept = kept.push(x@);
                assert(kept.to_set() =~= texts(da@.take(i + 1)).to_set().intersect(sb));
            }
            inter = inter + 1;
        } else {
            proof {
                assert(!sb.contains(x@));
                assert(kept.to_set() =~= texts(da@.take(i + 1)).to_set().intersect(sb));
            }
        }
        i = i + 1;
    }
    proof {
        assert(da@.take(na as int) =~= da@);
        kept.unique_seq_to_set();
        texts(da@).unique_seq_to_set();
    }
    let nb = db.len();
    proof {
        texts(db@).unique_seq_to_set();
        texts(a@).lemma_cardinality_of_set();
        texts(b@).lemma_cardinality_of_set();
    }
    let mut extra: usize = 0;
    let ghost mut fresh: Seq<Seq<char>> = Seq::empty();
    let mut j: usize = 0;
    while j < nb
        invariant
            nb == db@.len(),
            j <= nb,
            na == da@.len(),
            texts(db@).no_duplicates(),
            text_set(da@) == sa,
            text_set(db@) == sb,
            extra == fresh.len(),
            extra <= j,
            na <= a@.len(),
            nb <= b@.len(),
            a@.len() + b@.len() <= usize::MAX,
            fresh.no_duplicates(),
            fresh.to_set() == texts(db@.take(j as int)).to_set().difference(sa),
        decreases nb - j,
    {
        let y = &db[j];
        proof {
            assert(texts(db@.take(j + 1)) =~= texts(db@.take(j as int)).push(y@));
            assert(!texts(db@.take(j as int)).contains(y@)) by {
                if texts(db@.take(j as int)).contains(y@) {
                    let k = choose|k: int| 0 <= k < j && texts(db@.take(j as int))[k] == y@;
                    assert(texts(db@)[k] == texts(db@)[j as int]);
                }
            }
        }
        proof {
            lemma_push_to_set(texts(db@.take(j as int)), y@);
        }
        if !contains_text(&da, y.as_str()) {
            proof {
                assert(!fresh.contains(y@)) by {
                    if fresh.contains(y@) {
                        assert(fresh.to_set().contains(y@));
                    }
                }
                lemma_push_to_set(fresh, y@);
                fresh = fresh.push(y@);
                assert(fresh.to_set() =~= texts(db@.take(j + 1)).to_set().difference(sa));
            }
            extra = extra + 1;
        } else {
            proof {
                assert(sa.contains(y@));
                assert(fresh.to_set() =~= texts(db@.take(j + 1)).to_set().difference(sa));
            }
        }
        j = j + 1;
    }
    proof {
        assert(db@.take(nb as int) =~= db@);
        fresh.unique_seq_to_set();
        assert(sa.disjoint(sb.difference(sa)));
        vstd::set_lib::lemma_set_disjoint_lens(sa, sb.difference(sa));
        assert(sa + sb.difference(sa) =~= sa.union(sb));
        texts(a@).lemma_cardinality_of_set();
        texts(b@).lemma_cardinality_of_set();
        texts(db@).unique_seq_to_set();
        assert(na + extra <= usize::MAX);
    }
    (inter, na + extra)
}

/// The distinct texts of `a` that `b` also holds, first occurrences in
/// order: the skills two users share.
pub fn shared_texts(a: &Vec<String>, b: &Vec<String>) -> (r: Vec<String>)
    ensures
        texts(r@).no_duplicates(),
        text_set(r@) == text_set(a@).intersect(text_set(b@)),
{
    let da = distinct_texts(a);
    let ghost sb = text_set(b@);
    let n = da.len();
    let mut r: Vec<String> = Vec::new();
    let mut i: usize = 0;
    while i < n
        invariant
            n == da@.len(),
            i <= n,
            texts(da@).no_duplicates(),
            text_set(da@) == text_set(a@),
            sb == text_set(b@),
            texts(r@).no_duplicates(),
            texts(r@).to_set() == texts(da@.take(i as int)).to_set().intersect(sb),
        decreases n - i,
    {
        let ghost before = r@;
        proof {
            assert(texts(da@.take(i + 1)) =~= texts(da@.take(i as int)).push(da@[i as int]@));
            lemma_push_to_set(texts(da@.take(i as int)), da@[i as int]@);
            assert(!texts(da@.take(i as int)).contains(da@[i as int]@)) by {
                if texts(da@.take(i as int)).contains(da@[i as int]@) {
                    let k = choose|k: int| 0 <= k < i && texts(da@.take(i as int))[k] == da@[i as int]@;
                    assert(texts(da@)[k] == texts(da@)[i as int]);
                }
            }
        }
        if contains_text(b, da[i].as_str()) {
            r.push(da[i].clone());
            proof {
                assert(texts(r@) =~= texts(before).push(da@[i as int]@));
                assert(!texts(before).contains(da@[i as int]@)) by {
                    if texts(before).contains(da@[i as int]@) {
                        assert(texts(before).to_set().contains(da@[i as int]@));
                    }
                }
                lemma_push_to_set(texts(before), da@[i as int]@);
                assert(texts(r@).to_set() =~= texts(da@.take(i + 1)).to_set().intersect(sb));
            }
        } else {
            proof {
                assert(texts(r@).to_set() =~= texts(da@.take(i + 1)).to_set().intersect(sb));
            }
        }
        i = i + 1;
    }
    proof {
        assert(da@.take(n as int) =~= da@);
    }
    r
}

/// The entries of `target` that `viewer` lacks, duplicates counted: the
/// skills a target would bring.
pub open spec fn novel_entries(viewer: Seq<String>, target: Seq<String>) -> Seq<String> {
    target.filter(|t: String| !text_set(viewer).contains(t@))
}

/// How many of the target's skill tags the viewer lacks.
pub fn novel_tag_count(viewer: &Vec<String>, target: &Vec<String>) -> (r: usize)
    ensures
        r == novel_entries(viewer@, target@).len(),
{
    let n = target.len();
    let mut count: usize = 0;
    let mut i: usize = 0;
    while i < n
        invariant
            n == target@.len(),
            i <= n,
            count == novel_entries(viewer@, target@.take(i as int)).len(),
            count <= i,
        decreases n - i,
    {
        proof {
            assert(target@.take(i + 1) == target@.take(i as int).push(target@[i as int]));
            target@.take(i as int).lemma_filter_push(
                target@[i as int],
                |t: String| !text_set(viewer@).contains(t@),
            );
            if text_set(viewer@).contains(target@[i as int]@) {
                let k = choose|k: int| 0 <= k < texts(viewer@).len() && texts(viewer@)[k] == target@[i as int]@;
                assert(viewer@[k]@ == target@[i as int]@);
            }
        }
        if !contains_text(viewer, target[i].as_str()) {
            count = count + 1;
        }
        i = i + 1;
    }
    proof {
        assert(target@.take(n as int) =~= target@);
    }
    count
}

/// The category keys of those tags that have one, in order.
pub open spec fn categories_of_tags(tags: Seq<String>) -> Seq<Seq<char>>
    decreases tags.len(),
{
    if tags.len() == 0 {
        Seq::empty()
    } else {
        let before = categories_of_tags(tags.drop_last());
        match category_key_of(tags.last()@) {
            Some(k) => before.push(k),
            None => before,
        }
    }
}

/// The category keys of skill tags, where the catalog knows them.
pub fn tag_categories(tags: &Vec<String>) -> (r: Vec<String>)
    ensures
        texts(r@) == categories_of_tags(tags@),
{
    let mut r: Vec<String> = Vec::new();
    let n = tags.len();
    let mut i: usize = 0;
    while i < n
        invariant
            n == tags@.len(),
            i <= n,
            texts(r@) == categories_of_tags(tags@.take(i as int)),
        decreases n - i,
    {
        proof {
            assert(tags@.take(i + 1).drop_last() =~= tags@.take(i as int));
        }
        match category_of(tags[i].as_str()) {
            Some(k) => {
                let ghost before = r@;
                r.push(k.to_string());
                proof {
                    assert(texts(r@) =~= texts(before).push(k@));
                }
            },
            None => {},
        }
        i = i + 1;
    }
    proof {
        assert(tags@.take(n as int) =~= tags@);
    }
    r
}

/// The level the first skill named `name` has, 50 when there is none.
pub open spec fn level_of(skills: Seq<Skill>, name: Seq<char>) -> u8
    decreases skills.len(),
{
    if skills.len() == 0 {
        50
    } else if skills[0].name@ == name {
        skills[0].level
    } else {
        level_of(skills.drop_first(), name)
    }
}

/// The level of a user's skill, 50 when they do not list it.
pub fn skill_level(skills: &Vec<Skill>, name: &str) -> (r: u8)
    ensures
        r == level_of(skills@, name@),
{
    let n = skills.len();
    let mut i: usize = 0;
    proof {
        assert(skills@.skip(0) =~= skills@);
    }
    while i < n
        invariant
            n == skills@.len(),
            i <= n,
            level_of(skills@, name@) == level_of(skills@.skip(i as int), name@),
        decreases n - i,
    {
        proof {
            assert(skills@.skip(i as int).drop_first() =~= skills@.skip(i + 1));
        }
        if str_eq(skills[i].name.as_str(), name) {
            return skills[i].level;
        }
        i = i + 1;
    }
    proof {
        assert(skills@.skip(n as int) =~= Seq::<Skill>::empty());
    }
    50
}

/// A user's level for a skill is the level of the first skill they list
/// under that name; only a user who lists no skill of that name gets the
/// neutral 50.
pub proof fn law_skill_level_first_match(skills: Seq<Skill>, name: Seq<char>, i: int)
    ensures
        0 <= i < skills.len() && skills[i].name@ == name && (forall|j: int|
            0 <= j < i ==> skills[j].name@ != name) ==> level_of(skills, name) == skills[i].level,
        (forall|j: int| 0 <= j < skills.len() ==> skills[j].name@ != name) ==> level_of(skills, name)
            == 50,
    decreases skills.len(),
{
    if skills.len() > 0 {
        let d = skills.drop_first();
        law_skill_level_first_match(d, name, i - 1);
        if 0 < i < skills.len() && skills[i].name@ == name && (forall|j: int|
            0 <= j < i ==> skills[j].name@ != name) {
            assert(skills[0].name@ != name);
            assert(d[i - 1] == skills[i]);
            assert forall|j: int| 0 <= j < i - 1 implies d[j].name@ != name by {
                assert(d[j] == skills[j + 1]);
            }
        }
        if forall|j: int| 0 <= j < skills.len() ==> skills[j].name@ != name {
            assert(skills[0].name@ != name);
            assert forall|j: int| 0 <= j < d.len() implies d[j].name@ != name by {
                assert(d[j] == skills[j + 1]);
            }
        }
    }
}

/// The availability points of a pair: equal states score 100; otherwise the
/// target's state decides (open 80, busy 30, anything else 10); without the
/// viewer's state, an open target scores 70 and any other 30; without the
/// target's, 50.
pub open spec fn availability_points_of(viewer: Option<Seq<char>>, target: Option<Seq<char>>) -> u8 {
    match (viewer, target) {
        (Some(v), Some(t)) => if v == t {
            100
        } else if t == "open_for_collab"@ {
            80
        } else if t == "busy"@ {
            30
        } else {
            10
        },
        (None, Some(t)) => if t == "open_for_collab"@ {
            70
        } else {
            30
        },
        (_, None) => 50,
    }
}

/// How well two users' availability states fit, from 10 to 100.
pub fn availability_points(viewer: Option<&str>, target: Option<&str>) -> (r: u8)
    ensures
        r == availability_points_of(
            match viewer {
                Some(v) => Some(v@),
                None => None,
            },
            match target {
                Some(t) => Some(t@),
                None => None,
            },
        ),
{
    match (viewer, target) {
        (Some(v), Some(t)) => if str_eq(v, t) {
            100
        } else if str_eq(t, "open_for_collab") {
            80
        } else if str_eq(t, "busy") {
            30
        } else {
            10
        },
        (None, Some(t)) => if str_eq(t, "open_for_collab") {
            70
        } else {
            30
        },
        (_, None) => 50,
    }
}

// ── Laws ─────────────────────────────────────────────────────────────────────

/// The last category holding `l` exists exactly when some category holds it,
/// and is one of those categories.
proof fn lemma_last_category_some(cats: Seq<CategoryView>, l: Seq<char>)
    ensures
        (last_category_with(cats, l) is Some) <==> (exists|i: int| 0 <= i < cats.len() && category_has(#[trigger] cats[i], l)),
        last_category_with(cats, l) matches Some(k) ==> exists|i: int|
            0 <= i < cats.len() && (#[trigger] cats[i]).key == k && category_has(cats[i], l),
    decreases cats.len(),
{
    if cats.len() > 0 {
        let d = cats.drop_last();
        lemma_last_category_some(d, l);
        let n = cats.len() - 1;
        assert(cats[n] == cats.last());
        if !category_has(cats.last(), l) {
            assert forall|i: int| 0 <= i < n implies d[i] == cats[i] by {}
            if exists|i: int| 0 <= i < cats.len() && category_has(#[trigger] cats[i], l) {
                let i = choose|i: int| 0 <= i < cats.len() && category_has(#[trigger] cats[i], l);
                assert(i < n);
                assert(category_has(d[i], l));
            }
            if last_category_with(d, l) is Some {
                let i = choose|i: int| 0 <= i < d.len() && category_has(#[trigger] d[i], l);
                assert(category_has(cats[i], l));
            }
            if let Some(k) = last_category_with(cats, l) {
                let i = choose|i: int| 0 <= i < d.len() && (#[trigger] d[i]).key == k && category_has(d[i], l);
                assert(cats[i] == d[i]);
            }
        }
    }
}

/// The catalog's twelve category keys, in order.
pub open spec fn catalog_keys() -> Seq<Seq<char>> {
    seq![
        "frontend"@,
        "backend"@,
        "mobile"@,
        "ai_ml"@,
        "data"@,
        "design"@,
        "product"@,
        "devops"@,
        "security"@,
        "game"@,
        "hardware"@,
        "business"@,
    ]
}

/// A skill has a category exactly when it is a valid skill; the category is
/// the key of a catalog category holding a skill of the same lower-cased
/// name, so it is one of the catalog's twelve keys.
pub proof fn law_category_iff_valid(name: Seq<char>)
    ensures
        (category_key_of(name) is Some) <==> is_known_skill(name),
        category_key_of(name) matches Some(k) ==> exists|i: int|
            0 <= i < catalog().len() && (#[trigger] catalog()[i]).key == k && category_has(
                catalog()[i],
                lowercase(name),
            ),
        category_key_of(name) matches Some(k) ==> catalog_keys().contains(k),
        catalog().len() == 12,
        catalog().map_values(|c: CategoryView| c.key) == catalog_keys(),
{
    lemma_last_category_some(catalog(), lowercase(name));
    assert(catalog().map_values(|c: CategoryView| c.key) =~= catalog_keys());
    if let Some(k) = category_key_of(name) {
        let i = choose|i: int|
            0 <= i < catalog().len() && (#[trigger] catalog()[i]).key == k && category_has(
                catalog()[i],
                lowercase(name),
            );
        assert(catalog().map_values(|c: CategoryView| c.key)[i] == k);
        assert(catalog_keys()[i] == k);
    }
}

/// Skill validity ignores case: two names that lower-case alike are both
/// valid or both not.
pub proof fn law_validity_ignores_case(a: Seq<char>, b: Seq<char>)
    requires
        lowercase(a) == lowercase(b),
    ensures
        is_known_skill(a) == is_known_skill(b),
        category_key_of(a) == category_key_of(b),
{
}

/// Filtering skills is idempotent: filtering a filtered list changes nothing.
pub proof fn law_filter_idempotent(skills: Seq<String>)
    ensures
        skills.filter(|s: String| is_known_skill(s@)).filter(|s: String| is_known_skill(s@))
            == skills.filter(|s: String| is_known_skill(s@)),
{
    lemma_filter_idempotent(skills, |s: String| is_known_skill(s@));
}

/// The overlap of two skill lists is symmetric, and what they share never
/// exceeds what they hold together.
pub proof fn law_overlap_symmetric_and_bounded(a: Seq<String>, b: Seq<String>)
    ensures
        overlap_of(a, b) == overlap_of(b, a),
        overlap_of(a, b).0 <= overlap_of(a, b).1,
{
    broadcast use vstd::seq_lib::seq_to_set_is_finite;
    let sa = text_set(a);
    let sb = text_set(b);
    assert(sa.intersect(sb) =~= sb.intersect(sa));
    assert(sa.union(sb) =~= sb.union(sa));
    vstd::set_lib::lemma_set_intersect_union_lens(sa, sb);
    vstd::set_lib::lemma_len_subset(sa.intersect(sb), sa);
    vstd::set_lib::lemma_len_subset(sa, sa.union(sb));
}

} // verus!
